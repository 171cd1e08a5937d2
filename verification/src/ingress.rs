//! The ingress: what happens to one submitted event.
//!
//! A submitted event is checked, stamped with the time of acceptance, looked
//! up in the local cache of recent keys and, if its key is new there, offered
//! to the hand-off queue. The key is recorded in the cache before the event
//! is offered, and stays recorded when the queue turns the event away, so
//! that an immediate retry with the same key is answered as a duplicate.

use crate::cache::{
    build_cache, cache_entry_count, cache_get, cache_insert, cache_limit, cache_ttl_secs,
    CACHE_CAPACITY, CACHE_TTL_LIMIT_SECS, CACHE_TTL_SECS,
};
use crate::event::{unix_seconds_now, UsageEvent};
use crate::queue::{
    open_channel, receiver_bound, sender_bound, sender_free, try_send, Enqueue, QUEUE_CAPACITY,
};
use moka::sync::Cache;
use std::sync::Arc;
use tokio::sync::mpsc::{Receiver, Sender};
use tokio::sync::Semaphore;
use vstd::prelude::*;

verus! {

/// Number of sink appends that may be in flight at once.
pub const FLUSH_CONCURRENCY: usize = 50;

/// The port the ingress listens on, on every interface.
pub const LISTEN_PORT: u16 = 3000;

/// The path that takes submissions.
pub const INGEST_PATH: &'static str = "/ingest";

/// The path that answers liveness probes.
pub const LIVENESS_PATH: &'static str = "/";

/// The answer to a liveness probe.
pub const LIVENESS_BODY: &'static str = "OK";

/// `tokio::sync::Semaphore`, carried as an opaque value.
#[verifier::external_type_specification]
#[verifier::external_body]
pub struct ExSemaphore(Semaphore);

/// The number of permits that a semaphore was created with.
pub uninterp spec fn permits_made(semaphore: Semaphore) -> usize;

/// `Semaphore::new` inside a new `Arc`: a semaphore created with the given
/// number of permits. The call panics above `Semaphore::MAX_PERMITS`, which
/// is `usize::MAX >> 3`.
#[verifier::external_body]
fn new_semaphore(permits: usize) -> (semaphore: Arc<Semaphore>)
    requires
        permits <= usize::MAX / 8,
    ensures
        permits_made(*semaphore) == permits,
{
    Arc::new(Semaphore::new(permits))
}

/// What the ingress shares between requests.
pub struct AppState {
    /// Sending half of the hand-off queue.
    pub tx: Sender<UsageEvent>,
    /// Recently accepted idempotency keys, each with its acceptance time.
    pub local_cache: Cache<String, i64>,
    /// Permits that bound the sink appends in flight.
    pub flush_semaphore: Arc<Semaphore>,
}

/// The sizes a pipeline is started with.
#[derive(Clone, Copy, Debug, PartialEq, Eq, Structural)]
pub struct Limits {
    /// Events the hand-off queue holds at most.
    pub queue_capacity: usize,
    /// Keys the local cache holds at most.
    pub cache_capacity: u64,
    /// Seconds after which a cached key expires.
    pub cache_ttl_secs: u64,
    /// Sink appends that may be in flight at once.
    pub flush_concurrency: usize,
}

impl Limits {
    /// The limits can be built: the queue holds at least one event, and no
    /// number exceeds what the queue, the cache and the semaphore accept.
    pub open spec fn buildable(&self) -> bool {
        &&& 0 < self.queue_capacity <= usize::MAX / 8
        &&& self.cache_ttl_secs <= CACHE_TTL_LIMIT_SECS
        &&& self.flush_concurrency <= usize::MAX / 8
    }

    /// The limits of a production pipeline.
    pub fn standard() -> (limits: Limits)
        ensures
            limits == (Limits {
                queue_capacity: QUEUE_CAPACITY,
                cache_capacity: CACHE_CAPACITY,
                cache_ttl_secs: CACHE_TTL_SECS,
                flush_concurrency: FLUSH_CONCURRENCY,
            }),
            limits.buildable(),
    {
        Limits {
            queue_capacity: QUEUE_CAPACITY,
            cache_capacity: CACHE_CAPACITY,
            cache_ttl_secs: CACHE_TTL_SECS,
            flush_concurrency: FLUSH_CONCURRENCY,
        }
    }

    /// Whether the limits can be built.
    pub fn check(&self) -> (ok: bool)
        ensures
            ok == self.buildable(),
    {
        0 < self.queue_capacity && self.queue_capacity <= usize::MAX / 8 && self.cache_ttl_secs
            <= CACHE_TTL_LIMIT_SECS && self.flush_concurrency <= usize::MAX / 8
    }
}

impl AppState {
    /// A fresh pipeline state with an empty queue and an empty cache, and
    /// the receiving half of its queue; `None` exactly when the limits
    /// cannot be built.
    pub fn start(limits: Limits) -> (started: Option<(AppState, Receiver<UsageEvent>)>)
        ensures
            started is Some <==> limits.buildable(),
            started matches Some(pair) ==> {
                &&& sender_bound(pair.0.tx) == limits.queue_capacity
                &&& receiver_bound(pair.1) == limits.queue_capacity
                &&& cache_limit(pair.0.local_cache) == Some(limits.cache_capacity)
                &&& cache_ttl_secs(pair.0.local_cache) == Some(limits.cache_ttl_secs)
                &&& permits_made(*pair.0.flush_semaphore) == limits.flush_concurrency
            },
    {
        if !limits.check() {
            return None;
        }
        let (tx, rx) = open_channel(limits.queue_capacity);
        let local_cache = build_cache(limits.cache_capacity, limits.cache_ttl_secs);
        let flush_semaphore = new_semaphore(limits.flush_concurrency);
        Some((AppState { tx, local_cache, flush_semaphore }, rx))
    }

    /// The free slots of the hand-off queue at the moment of the call.
    pub fn queue_free(&self) -> usize {
        sender_free(&self.tx)
    }

    /// An estimate of the number of keys in the local cache.
    pub fn cache_size(&self) -> u64 {
        cache_entry_count(&self.local_cache)
    }
}

/// The answer to one submission.
#[derive(Clone, Copy, Debug, PartialEq, Eq, Structural)]
pub enum Response {
    /// The event is in the hand-off queue.
    Accepted,
    /// The local cache already held the event's key; nothing was enqueued.
    Duplicate,
    /// The hand-off queue did not take the event.
    BufferFull,
    /// A string field of the event is empty; nothing was done with it.
    Invalid,
}

impl Response {
    /// The HTTP status code of the answer.
    pub open spec fn status_code(self) -> u16 {
        match self {
            Response::Accepted => 202,
            Response::Duplicate => 202,
            Response::BufferFull => 503,
            Response::Invalid => 422,
        }
    }

    /// The HTTP status code of the answer.
    pub fn status(&self) -> (code: u16)
        ensures
            code == self.status_code(),
    {
        match self {
            Response::Accepted => 202,
            Response::Duplicate => 202,
            Response::BufferFull => 503,
            Response::Invalid => 422,
        }
    }

    /// How the answer is counted.
    pub fn processed(&self) -> (counted: Processed)
        ensures
            counted == processed_as(*self),
    {
        match self {
            Response::Accepted => Processed::Success,
            Response::Duplicate => Processed::Uncounted,
            Response::BufferFull => Processed::Error,
            Response::Invalid => Processed::Error,
        }
    }

    /// The body of the answer.
    pub fn body(&self) -> (text: &'static str)
        ensures
            text@ == match *self {
                Response::Accepted => "transaction accepted"@,
                Response::Duplicate => "Duplicate"@,
                Response::BufferFull => "Buffer Full"@,
                Response::Invalid => "Unprocessable Entity"@,
            },
    {
        match self {
            Response::Accepted => "transaction accepted",
            Response::Duplicate => "Duplicate",
            Response::BufferFull => "Buffer Full",
            Response::Invalid => "Unprocessable Entity",
        }
    }
}

/// How a submission is counted once it has been dealt with: as a success,
/// as an error, or not at all.
#[derive(Clone, Copy, Debug, PartialEq, Eq, Structural)]
pub enum Processed {
    /// The event went into the queue.
    Success,
    /// The event was malformed or the queue did not take it.
    Error,
    /// The event was a duplicate and is counted as such only.
    Uncounted,
}

impl Processed {
    /// The value of the `status` label, if the submission is counted.
    pub fn label(&self) -> (text: Option<&'static str>)
        ensures
            *self == Processed::Uncounted <==> text is None,
            *self == Processed::Success ==> text == Some("success"),
            *self == Processed::Error ==> text == Some("error"),
    {
        match self {
            Processed::Success => Some("success"),
            Processed::Error => Some("error"),
            Processed::Uncounted => None,
        }
    }
}

/// How an answer is counted.
pub open spec fn processed_as(response: Response) -> Processed {
    match response {
        Response::Accepted => Processed::Success,
        Response::Duplicate => Processed::Uncounted,
        Response::BufferFull => Processed::Error,
        Response::Invalid => Processed::Error,
    }
}

/// The answer that follows from what the ingress found: whether the event
/// was valid, whether the cache held its key and, if the event was offered
/// to the queue, what the queue did with it.
pub open spec fn response_for(valid: bool, cache_hit: bool, enqueue: Option<Enqueue>) -> Response {
    if !valid {
        Response::Invalid
    } else if cache_hit {
        Response::Duplicate
    } else if enqueue == Some(Enqueue::Accepted) {
        Response::Accepted
    } else {
        Response::BufferFull
    }
}

/// The answer that follows from what the ingress found.
pub fn respond(valid: bool, cache_hit: bool, enqueue: Option<Enqueue>) -> (response: Response)
    ensures
        response == response_for(valid, cache_hit, enqueue),
{
    if !valid {
        Response::Invalid
    } else if cache_hit {
        Response::Duplicate
    } else {
        match enqueue {
            Some(Enqueue::Accepted) => Response::Accepted,
            _ => Response::BufferFull,
        }
    }
}

/// What the ingress did with one submission.
#[derive(Clone, Copy, Debug, PartialEq, Eq, Structural)]
pub struct IngestReport {
    /// The answer to the client.
    pub response: Response,
    /// Whether every string field of the event was non-empty.
    pub valid: bool,
    /// Whether the local cache held the event's key.
    pub cache_hit: bool,
    /// What the queue did with the event, if the event was offered to it.
    pub enqueue: Option<Enqueue>,
    /// The time the event was stamped with.
    pub stamped_at: i64,
}

impl IngestReport {
    /// The report is one that the ingress can produce: an invalid event is
    /// neither looked up nor offered, an event whose key is cached is not
    /// offered, any other event is offered, and the answer follows from
    /// these.
    pub open spec fn coherent(&self) -> bool {
        &&& !self.valid ==> !self.cache_hit
        &&& self.enqueue is Some <==> self.valid && !self.cache_hit
        &&& self.response == response_for(self.valid, self.cache_hit, self.enqueue)
    }
}

/// Handles one submission at the given time.
///
/// An event with an empty string field is refused outright. Otherwise the
/// event is stamped with `now`; if the local cache holds its key the answer
/// is `Duplicate` and the queue is not touched; if not, the key is cached
/// with `now` and the stamped event is offered to the queue.
pub fn ingest_at(state: &AppState, payload: UsageEvent, now: i64) -> (report: IngestReport)
    ensures
        report.coherent(),
        report.valid == payload.is_valid(),
        report.stamped_at == now,
{
    if !payload.validate() {
        return IngestReport {
            response: respond(false, false, None),
            valid: false,
            cache_hit: false,
            enqueue: None,
            stamped_at: now,
        };
    }
    let event = payload.stamped(now);
    if cache_get(&state.local_cache, &event.idempotency_key).is_some() {
        return IngestReport {
            response: respond(true, true, None),
            valid: true,
            cache_hit: true,
            enqueue: None,
            stamped_at: now,
        };
    }
    cache_insert(&state.local_cache, event.idempotency_key.clone(), now);
    let outcome = try_send(&state.tx, event);
    IngestReport {
        response: respond(true, false, Some(outcome)),
        valid: true,
        cache_hit: false,
        enqueue: Some(outcome),
        stamped_at: now,
    }
}

/// Handles one submission at the current wall-clock time.
pub fn ingest(state: &AppState, payload: UsageEvent) -> (report: IngestReport)
    ensures
        report.coherent(),
        report.valid == payload.is_valid(),
{
    let now: i64 = unix_seconds_now();
    ingest_at(state, payload, now)
}

/// An answer of `Accepted` means that the queue took the event, and an
/// answer of `BufferFull` that the event was offered and the queue did not
/// take it.
pub proof fn lemma_accepted_means_enqueued(report: IngestReport)
    requires
        report.coherent(),
    ensures
        report.response == Response::Accepted <==> report.enqueue == Some(Enqueue::Accepted),
        report.response == Response::BufferFull <==> (report.enqueue is Some && report.enqueue
            != Some(Enqueue::Accepted)),
{
}

/// A submission whose key the local cache holds is answered as a duplicate
/// and is not offered to the queue.
pub proof fn lemma_cache_hit_means_duplicate(report: IngestReport)
    requires
        report.coherent(),
    ensures
        report.cache_hit <==> report.response == Response::Duplicate,
        report.cache_hit ==> report.enqueue is None,
{
}

} // verus!
