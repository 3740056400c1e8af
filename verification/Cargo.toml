[package]
name = "trace_collector"
version = "0.1.0"
edition = "2021"
publish = false

[dependencies]
datadog-apm = "=0.2.0"
rand = "=0.8.8"
rmp = "=0.8.8"
serde = { version = "=1.0.229", features = ["derive"] }
serde_json = "=1.0.154"
slog = "=2.8.2"
slog-async = "=2.8.0"
slog-json = "=2.6.1"
tracing = "=0.1.44"
