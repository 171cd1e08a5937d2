[package]
name = "ingestion_api"
version = "0.1.0"
edition = "2021"
publish = false

[dependencies]
axum = "*"
chrono = "0.4"
clickhouse = { version = "*", features = ["uuid"] }
dotenvy = "0.15"
metrics = "*"
metrics-exporter-prometheus = "*"
moka = { version = "0.12", features = ["sync", "future"] }
num_cpus = "1"
redis = { version = "*", features = ["tokio-comp", "connection-manager"] }
serde = { version = "1", features = ["derive"] }
tokio = { version = "1", features = ["full"] }
tokio-util = "0.7"
uuid = { version = "1", features = ["v4", "serde"] }
