[package]
name = "bitwarden_secret_operator"
version = "0.1.0"
edition = "2021"
publish = false

[dependencies]
axum = "=0.7.9"
chrono = { version = "=0.4.45", features = ["serde"] }
eyre = "=0.6.14"
futures = "=0.3.34"
k8s-openapi = { version = "=0.21.1", features = ["latest"] }
kube = { version = "=0.88.1", features = ["derive", "runtime"] }
metrics = "=0.22.4"
metrics-exporter-prometheus = { version = "=0.14.0", default-features = false }
opentelemetry = "=0.22.0"
opentelemetry-otlp = "=0.15.0"
opentelemetry_sdk = { version = "=0.22.1", features = ["rt-tokio"] }
schemars = { version = "=0.8.22", features = ["chrono"] }
serde = { version = "=1.0.229", features = ["derive"] }
serde_json = "=1.0.154"
serde_yaml = "=0.9.34"
thiserror = "=1.0.69"
tokio = { version = "=1.54.1", features = ["full"] }
tonic = "=0.11.0"
tracing = "=0.1.44"
tracing-opentelemetry = "=0.23.0"
tracing-subscriber = "=0.3.23"
