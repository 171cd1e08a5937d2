use ingestion_api::event::UsageEvent;
use ingestion_api::ingress::{
    ingest, ingest_at, respond, AppState, IngestReport, Limits, Processed, Response,
    FLUSH_CONCURRENCY, INGEST_PATH, LISTEN_PORT, LIVENESS_BODY, LIVENESS_PATH,
};
use ingestion_api::queue::Enqueue;
use tokio::sync::mpsc::error::TryRecvError;
use tokio::sync::mpsc::Receiver;

fn submission(key: &str, amount: u64) -> UsageEvent {
    UsageEvent::with_identity(7, 0, "c1".to_string(), "api".to_string(), amount, key.to_string())
}

fn small_pipeline(queue_capacity: usize) -> (AppState, Receiver<UsageEvent>) {
    let limits = Limits {
        queue_capacity,
        cache_capacity: 1000,
        cache_ttl_secs: 600,
        flush_concurrency: 50,
    };
    AppState::start(limits).expect("limits can be built")
}

#[test]
fn test_ingestion_and_local_deduplication() {
    let (state, mut rx) = small_pipeline(100);

    let response = ingest(&state, submission("key_1", 100));
    assert_eq!(response.response.status(), 202);

    let received = rx.try_recv().expect("Event should be in buffer");
    assert_eq!(received.idempotency_key, "key_1");

    let response_dup = ingest(&state, submission("key_1", 100));
    assert_eq!(response_dup.response.status(), 202);
    assert!(rx.try_recv().is_err(), "Duplicate should not reach buffer");
}

#[test]
fn local_dedupe_answers_second_post_as_duplicate() {
    let (state, mut rx) = small_pipeline(100);

    let first = ingest_at(&state, submission("k1", 1), 1_700_000_000);
    assert_eq!(first.response, Response::Accepted);
    assert_eq!(first.response.status(), 202);
    assert_eq!(first.response.body(), "transaction accepted");
    assert!(!first.cache_hit);
    assert_eq!(first.enqueue, Some(Enqueue::Accepted));

    let second = ingest_at(&state, submission("k1", 1), 1_700_000_001);
    assert_eq!(second.response, Response::Duplicate);
    assert_eq!(second.response.status(), 202);
    assert_eq!(second.response.body(), "Duplicate");
    assert!(second.cache_hit);
    assert_eq!(second.enqueue, None);

    let queued = rx.try_recv().expect("one event is queued");
    assert_eq!(queued.idempotency_key, "k1");
    assert_eq!(rx.try_recv().err(), Some(TryRecvError::Empty));
}

#[test]
fn buffer_full_on_third_request() {
    let (state, mut rx) = small_pipeline(2);

    assert_eq!(ingest(&state, submission("a", 1)).response, Response::Accepted);
    assert_eq!(ingest(&state, submission("b", 1)).response, Response::Accepted);
    let third = ingest(&state, submission("c", 1));
    assert_eq!(third.response, Response::BufferFull);
    assert_eq!(third.response.status(), 503);
    assert_eq!(third.response.body(), "Buffer Full");
    assert_eq!(third.enqueue, Some(Enqueue::Full));

    assert_eq!(rx.try_recv().unwrap().idempotency_key, "a");
    assert_eq!(rx.try_recv().unwrap().idempotency_key, "b");
    assert!(rx.try_recv().is_err());
}

#[test]
fn key_stays_cached_after_buffer_full() {
    let (state, mut rx) = small_pipeline(1);

    assert_eq!(ingest(&state, submission("a", 1)).response, Response::Accepted);
    assert_eq!(ingest(&state, submission("b", 1)).response, Response::BufferFull);
    rx.try_recv().expect("the first event is queued");

    let retry = ingest(&state, submission("b", 1));
    assert_eq!(retry.response, Response::Duplicate);
    assert!(rx.try_recv().is_err());
}

#[test]
fn closed_queue_is_answered_as_buffer_full() {
    let (state, rx) = small_pipeline(4);
    drop(rx);
    let report = ingest(&state, submission("a", 1));
    assert_eq!(report.enqueue, Some(Enqueue::Closed));
    assert_eq!(report.response, Response::BufferFull);
}

#[test]
fn ingest_overwrites_the_client_timestamp() {
    let (state, mut rx) = small_pipeline(4);
    let mut payload = submission("stamp", 5);
    payload.timestamp = 12;
    let report = ingest_at(&state, payload, 1_700_000_123);
    assert_eq!(report.stamped_at, 1_700_000_123);
    let queued = rx.try_recv().unwrap();
    assert_eq!(queued.timestamp, 1_700_000_123);
    assert_eq!(queued.event_id, 7);
    assert_eq!(queued.customer_id, "c1");
    assert_eq!(queued.event_type, "api");
    assert_eq!(queued.amount, 5);
    assert_eq!(state.local_cache.get("stamp"), Some(1_700_000_123));
}

#[test]
fn ingest_stamps_with_the_wall_clock() {
    let (state, mut rx) = small_pipeline(4);
    let before = std::time::SystemTime::now()
        .duration_since(std::time::UNIX_EPOCH)
        .unwrap()
        .as_secs() as i64;
    let report = ingest(&state, submission("now", 1));
    let after = std::time::SystemTime::now()
        .duration_since(std::time::UNIX_EPOCH)
        .unwrap()
        .as_secs() as i64;
    assert!(before <= report.stamped_at && report.stamped_at <= after);
    assert_eq!(rx.try_recv().unwrap().timestamp, report.stamped_at);
}

#[test]
fn invalid_event_is_refused_untouched() {
    let (state, mut rx) = small_pipeline(4);
    let empty_key = submission("", 1);
    let report = ingest(&state, empty_key);
    assert_eq!(
        report,
        IngestReport {
            response: Response::Invalid,
            valid: false,
            cache_hit: false,
            enqueue: None,
            stamped_at: report.stamped_at,
        }
    );
    assert_eq!(report.response.status(), 422);
    assert_eq!(report.response.body(), "Unprocessable Entity");
    assert!(rx.try_recv().is_err());
    assert_eq!(state.local_cache.get(""), None);

    let no_customer =
        UsageEvent::with_identity(1, 0, String::new(), "api".to_string(), 1, "k".to_string());
    assert_eq!(ingest(&state, no_customer).response, Response::Invalid);
    let no_type =
        UsageEvent::with_identity(1, 0, "c1".to_string(), String::new(), 1, "k".to_string());
    assert_eq!(ingest(&state, no_type).response, Response::Invalid);
    assert_eq!(ingest(&state, submission("k", 1)).response, Response::Accepted);
}

#[test]
fn respond_covers_every_finding() {
    assert_eq!(respond(false, false, None), Response::Invalid);
    assert_eq!(respond(false, true, Some(Enqueue::Accepted)), Response::Invalid);
    assert_eq!(respond(true, true, None), Response::Duplicate);
    assert_eq!(respond(true, true, Some(Enqueue::Accepted)), Response::Duplicate);
    assert_eq!(respond(true, false, Some(Enqueue::Accepted)), Response::Accepted);
    assert_eq!(respond(true, false, Some(Enqueue::Full)), Response::BufferFull);
    assert_eq!(respond(true, false, Some(Enqueue::Closed)), Response::BufferFull);
    assert_eq!(respond(true, false, None), Response::BufferFull);
}

#[test]
fn standard_limits() {
    let limits = Limits::standard();
    assert_eq!(limits.queue_capacity, 100_000);
    assert_eq!(limits.cache_capacity, 100_000);
    assert_eq!(limits.cache_ttl_secs, 600);
    assert_eq!(limits.flush_concurrency, 50);
    assert!(limits.check());
}

#[test]
fn start_builds_what_the_limits_say() {
    let limits = Limits {
        queue_capacity: 7,
        cache_capacity: 11,
        cache_ttl_secs: 13,
        flush_concurrency: 3,
    };
    let (state, rx) = AppState::start(limits).expect("limits can be built");
    assert_eq!(state.tx.max_capacity(), 7);
    assert_eq!(rx.max_capacity(), 7);
    assert_eq!(state.queue_free(), 7);
    assert_eq!(state.local_cache.policy().max_capacity(), Some(11));
    assert_eq!(
        state.local_cache.policy().time_to_live(),
        Some(std::time::Duration::from_secs(13))
    );
    assert_eq!(state.flush_semaphore.available_permits(), 3);
    assert_eq!(state.cache_size(), 0);
}

#[test]
fn start_refuses_limits_that_cannot_be_built() {
    let good = Limits::standard();
    assert!(AppState::start(Limits { queue_capacity: 0, ..good }).is_none());
    assert!(!Limits { queue_capacity: 0, ..good }.check());
    assert!(AppState::start(Limits { queue_capacity: usize::MAX / 8 + 1, ..good }).is_none());
    assert!(AppState::start(Limits { cache_ttl_secs: 31_536_000_001, ..good }).is_none());
    assert!(AppState::start(Limits { flush_concurrency: usize::MAX / 8 + 1, ..good }).is_none());
    assert!(Limits { cache_ttl_secs: 31_536_000_000, ..good }.check());
    assert!(AppState::start(Limits { cache_ttl_secs: 31_536_000_000, queue_capacity: 1, ..good })
        .is_some());
}

#[test]
fn queue_free_follows_the_queue() {
    let (state, mut rx) = small_pipeline(3);
    assert_eq!(state.queue_free(), 3);
    ingest(&state, submission("a", 1));
    assert_eq!(state.queue_free(), 2);
    rx.try_recv().unwrap();
    assert_eq!(state.queue_free(), 3);
}

#[test]
fn answers_are_counted_by_status() {
    assert_eq!(Response::Accepted.processed(), Processed::Success);
    assert_eq!(Response::Duplicate.processed(), Processed::Uncounted);
    assert_eq!(Response::BufferFull.processed(), Processed::Error);
    assert_eq!(Response::Invalid.processed(), Processed::Error);
    assert_eq!(Processed::Success.label(), Some("success"));
    assert_eq!(Processed::Error.label(), Some("error"));
    assert_eq!(Processed::Uncounted.label(), None);
}

#[test]
fn http_surface_constants() {
    assert_eq!(FLUSH_CONCURRENCY, 50);
    assert_eq!(LISTEN_PORT, 3000);
    assert_eq!(INGEST_PATH, "/ingest");
    assert_eq!(LIVENESS_PATH, "/");
    assert_eq!(LIVENESS_BODY, "OK");
}

#[test]
fn every_further_post_of_a_key_is_a_duplicate() {
    let (state, mut rx) = small_pipeline(100);
    assert_eq!(ingest_at(&state, submission("k", 1), 1_700_000_000).response, Response::Accepted);
    assert_eq!(rx.try_recv().unwrap().idempotency_key, "k");
    for later in 1..50i64 {
        let report = ingest_at(&state, submission("k", 1), 1_700_000_000 + later);
        assert_eq!(report.response, Response::Duplicate);
        assert_eq!(report.enqueue, None);
        assert!(rx.try_recv().is_err());
        assert_eq!(state.queue_free(), 100);
    }
}
