//! The names under which the pipeline reports its counters, gauges and
//! histograms.

use vstd::prelude::*;

verus! {

/// The port the metrics are exposed on, on every interface.
pub const METRICS_PORT: u16 = 8000;

/// Counter: submissions received.
pub const API_REQUEST_TOTAL: &'static str = "api_request_total";

/// Counter: submissions dealt with, by the label `status`.
pub const API_REQUEST_PROCESSED: &'static str = "api_request_processed";

/// Counter: duplicates found, by the label `source`.
pub const API_DUPLICATE_REQUEST_TOTAL: &'static str = "api_duplicate_request_total";

/// Gauge: state of the hand-off queue.
pub const MPSC_BUFFER_USAGE: &'static str = "mpsc_buffer_usage";

/// Gauge: keys in the local cache.
pub const LOCAL_CACHE_SIZE: &'static str = "local_cache_size";

/// Histogram: events per batch handed to the shared dedupe check.
pub const WORKER_BATCH_SIZE: &'static str = "worker_batch_size";

/// Histogram: seconds a successful flush took, retries included.
pub const CLICKHOUSE_FLUSH_DURATION_SECONDS: &'static str = "clickhouse_flush_duration_seconds";

/// Counter: events appended to the sink.
pub const EVENTS_FLUSHED_TO_CLICKHOUSE: &'static str = "events_flushed_to_clickhouse";

/// Counter: failed sink appends.
pub const CLICKHOUSE_FLUSH_FAILURES: &'static str = "clickhouse_flush_failures";

/// Label of a counter of submissions dealt with.
pub const LABEL_STATUS: &'static str = "status";

/// Label of a counter of duplicates.
pub const LABEL_SOURCE: &'static str = "source";

/// Value of `source` for a duplicate found in the local cache.
pub const SOURCE_LOCAL: &'static str = "local";

/// Value of `source` for a duplicate found in the shared store.
pub const SOURCE_REDIS: &'static str = "redis";

} // verus!
