[package]
name = "power_grid"
version = "0.1.0"
edition = "2021"
publish = false

[dependencies]
rand = "0.8"
chrono = "0.4"
serde = { version = "1", features = ["derive"] }
avro-rs = "0.13"
schema_registry_converter = { version = "2", features = ["avro", "easy"] }
rdkafka = "0.28"
tokio = { version = "1", features = ["full"] }
tokio-stream = { version = "0.1", features = ["time"] }
futures = "0.3"
clap = { version = "3", features = ["derive"] }
log = "0.4"
metrics = "0.17"
metrics-exporter-prometheus = "0.6"
metrics-util = "0.10"
tracing-subscriber = "0.3"
