use ingestion_api::event::UsageEvent;

#[test]
fn new_event_keeps_the_caller_fields() {
    let before = std::time::SystemTime::now()
        .duration_since(std::time::UNIX_EPOCH)
        .unwrap()
        .as_secs() as i64;
    let event = UsageEvent::new("c1".to_string(), "api".to_string(), 42, "k1".to_string());
    let after = std::time::SystemTime::now()
        .duration_since(std::time::UNIX_EPOCH)
        .unwrap()
        .as_secs() as i64;
    assert_eq!(event.customer_id, "c1");
    assert_eq!(event.event_type, "api");
    assert_eq!(event.amount, 42);
    assert_eq!(event.idempotency_key, "k1");
    assert!(before <= event.timestamp && event.timestamp <= after);
}

#[test]
fn new_events_get_fresh_version_four_ids() {
    let a = UsageEvent::new("c".to_string(), "t".to_string(), 1, "k".to_string());
    let b = UsageEvent::new("c".to_string(), "t".to_string(), 1, "k".to_string());
    assert_ne!(a.event_id, b.event_id);
    let id = uuid::Uuid::from_u128(a.event_id);
    assert_eq!(id.get_version_num(), 4);
    assert_eq!(id.get_variant(), uuid::Variant::RFC4122);
    for event in [&a, &b] {
        assert_eq!((event.event_id >> 76) & 0xf, 4);
        assert_eq!((event.event_id >> 62) & 0x3, 2);
    }
}

#[test]
fn submission_keeps_a_sent_id_and_makes_up_a_missing_one() {
    let sent = UsageEvent::from_submission(
        Some(0xa1a2a3a4_b1b2_c1c2_d1d2_d3d4d5d6d7d8),
        "c1".to_string(),
        "api".to_string(),
        3,
        "k1".to_string(),
    );
    assert_eq!(sent.event_id, 0xa1a2a3a4_b1b2_c1c2_d1d2_d3d4d5d6d7d8);
    assert_eq!(sent.customer_id, "c1");
    assert_eq!(sent.event_type, "api");
    assert_eq!(sent.amount, 3);
    assert_eq!(sent.idempotency_key, "k1");

    let made =
        UsageEvent::from_submission(None, "c1".to_string(), "api".to_string(), 3, "k1".to_string());
    assert_eq!(uuid::Uuid::from_u128(made.event_id).get_version_num(), 4);
    assert_eq!(made.customer_id, "c1");
    assert_eq!(made.event_type, "api");
    assert_eq!(made.amount, 3);
    assert_eq!(made.idempotency_key, "k1");
}

#[test]
fn with_identity_stores_every_part() {
    let event = UsageEvent::with_identity(
        0x0123_4567_89ab_cdef_0123_4567_89ab_cdef,
        -5,
        "tenant".to_string(),
        "storage".to_string(),
        u64::MAX,
        "key".to_string(),
    );
    assert_eq!(event.event_id, 0x0123_4567_89ab_cdef_0123_4567_89ab_cdef);
    assert_eq!(event.timestamp, -5);
    assert_eq!(event.customer_id, "tenant");
    assert_eq!(event.event_type, "storage");
    assert_eq!(event.amount, u64::MAX);
    assert_eq!(event.idempotency_key, "key");
}

#[test]
fn validate_wants_every_string_field() {
    let parts = |c: &str, t: &str, k: &str| {
        UsageEvent::with_identity(1, 0, c.to_string(), t.to_string(), 0, k.to_string())
    };
    assert!(parts("c", "t", "k").validate());
    assert!(!parts("", "t", "k").validate());
    assert!(!parts("c", "", "k").validate());
    assert!(!parts("c", "t", "").validate());
    assert!(!parts("", "", "").validate());
}

#[test]
fn stamped_replaces_only_the_timestamp() {
    let event =
        UsageEvent::with_identity(9, 1, "c".to_string(), "t".to_string(), 3, "k".to_string());
    let stamped = event.stamped(77);
    assert_eq!(stamped.timestamp, 77);
    assert_eq!(stamped.event_id, 9);
    assert_eq!(stamped.customer_id, "c");
    assert_eq!(stamped.event_type, "t");
    assert_eq!(stamped.amount, 3);
    assert_eq!(stamped.idempotency_key, "k");
}

#[test]
fn clone_copies_every_field() {
    let event =
        UsageEvent::with_identity(9, 1, "c".to_string(), "t".to_string(), 3, "k".to_string());
    let copy = event.clone();
    assert_eq!(copy.event_id, 9);
    assert_eq!(copy.timestamp, 1);
    assert_eq!(copy.customer_id, "c");
    assert_eq!(copy.event_type, "t");
    assert_eq!(copy.amount, 3);
    assert_eq!(copy.idempotency_key, "k");
}
