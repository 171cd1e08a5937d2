use ingestion_api::retry::{
    FlushRetry, RetryAction, BACKOFF_STEP_MILLIS, MAX_RETRIES, SINK_TABLE,
};

#[test]
fn retry_constants() {
    assert_eq!(MAX_RETRIES, 5);
    assert_eq!(BACKOFF_STEP_MILLIS, 100);
    assert_eq!(SINK_TABLE, "usage_events");
}

#[test]
fn two_failures_then_success_takes_three_attempts() {
    let mut retry = FlushRetry::new(MAX_RETRIES);
    let mut script = vec![false, false, true].into_iter();
    let mut attempts = 0;
    let mut waits = Vec::new();
    let mut delivered = false;
    while retry.may_attempt() {
        attempts += 1;
        if script.next().unwrap() {
            delivered = true;
            break;
        }
        match retry.record_failure() {
            RetryAction::RetryAfter(ms) => waits.push(ms),
            RetryAction::GiveUp => break,
        }
    }
    assert!(delivered);
    assert_eq!(attempts, 3);
    assert_eq!(retry.failures(), 2);
    assert_eq!(waits, vec![100, 200]);
}

#[test]
fn flush_is_given_up_after_five_failures() {
    let mut retry = FlushRetry::new(5);
    assert_eq!(retry.max_retries(), 5);
    assert_eq!(retry.failures(), 0);
    assert!(retry.may_attempt());
    assert_eq!(retry.record_failure(), RetryAction::RetryAfter(100));
    assert_eq!(retry.record_failure(), RetryAction::RetryAfter(200));
    assert_eq!(retry.record_failure(), RetryAction::RetryAfter(300));
    assert_eq!(retry.record_failure(), RetryAction::RetryAfter(400));
    assert!(retry.may_attempt());
    assert_eq!(retry.record_failure(), RetryAction::GiveUp);
    assert_eq!(retry.failures(), 5);
    assert!(!retry.may_attempt());
    assert_eq!(retry.record_failure(), RetryAction::GiveUp);
    assert_eq!(retry.failures(), 5);
}

#[test]
fn no_attempt_is_made_without_retries() {
    let mut retry = FlushRetry::new(0);
    assert!(!retry.may_attempt());
    assert_eq!(retry.record_failure(), RetryAction::GiveUp);
    assert_eq!(retry.failures(), 0);
}

#[test]
fn backoff_grows_by_a_step_per_failure() {
    let mut retry = FlushRetry::new(255);
    for n in 1..255u64 {
        assert_eq!(retry.record_failure(), RetryAction::RetryAfter(100 * n));
    }
    assert_eq!(retry.record_failure(), RetryAction::GiveUp);
    assert_eq!(retry.failures(), 255);
}
