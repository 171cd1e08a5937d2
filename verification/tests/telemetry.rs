use ingestion_api::telemetry::{
    API_DUPLICATE_REQUEST_TOTAL, API_REQUEST_PROCESSED, API_REQUEST_TOTAL,
    CLICKHOUSE_FLUSH_DURATION_SECONDS, CLICKHOUSE_FLUSH_FAILURES, EVENTS_FLUSHED_TO_CLICKHOUSE,
    LABEL_SOURCE, LABEL_STATUS, LOCAL_CACHE_SIZE, METRICS_PORT, MPSC_BUFFER_USAGE, SOURCE_LOCAL,
    SOURCE_REDIS, WORKER_BATCH_SIZE,
};

#[test]
fn metric_names() {
    assert_eq!(METRICS_PORT, 8000);
    assert_eq!(API_REQUEST_TOTAL, "api_request_total");
    assert_eq!(API_REQUEST_PROCESSED, "api_request_processed");
    assert_eq!(API_DUPLICATE_REQUEST_TOTAL, "api_duplicate_request_total");
    assert_eq!(MPSC_BUFFER_USAGE, "mpsc_buffer_usage");
    assert_eq!(LOCAL_CACHE_SIZE, "local_cache_size");
    assert_eq!(WORKER_BATCH_SIZE, "worker_batch_size");
    assert_eq!(CLICKHOUSE_FLUSH_DURATION_SECONDS, "clickhouse_flush_duration_seconds");
    assert_eq!(EVENTS_FLUSHED_TO_CLICKHOUSE, "events_flushed_to_clickhouse");
    assert_eq!(CLICKHOUSE_FLUSH_FAILURES, "clickhouse_flush_failures");
    assert_eq!(LABEL_STATUS, "status");
    assert_eq!(LABEL_SOURCE, "source");
    assert_eq!(SOURCE_LOCAL, "local");
    assert_eq!(SOURCE_REDIS, "redis");
}
