//! The in-process core of a usage-event ingestion pipeline.
//!
//! Events arrive at the ingress, are checked against a local cache of recent
//! idempotency keys, and are handed to a bounded queue. Workers collect them
//! into batches, drop the events whose keys a shared store already holds, and
//! append what is left to the sink, retrying a failed append a bounded number
//! of times.
//!
//! The decisions of that pipeline live here and are proved against their
//! contracts. Network and file I/O, the HTTP server and the task runtime stay
//! with the caller, which hands in what it observed and carries out what the
//! functions here decide.

pub mod cache;
pub mod db;
pub mod dedupe;
pub mod event;
pub mod ingress;
pub mod queue;
pub mod retry;
pub mod store;
pub mod telemetry;
pub mod worker;
