[package]
name = "toolbelt"
version = "0.1.0"
edition = "2021"
publish = false

[dependencies]
anyhow = "=1.0.104"
axum = "=0.8.9"
chrono = "=0.4.45"
jsonschema = { version = "0.46", default-features = false }
opentelemetry = "=0.33.1"
opentelemetry-otlp = { version = "=0.33.1", features = ["grpc-tonic"] }
opentelemetry_sdk = "=0.33.1"
rmcp = { version = "=1.8.0", features = ["server", "transport-streamable-http-server"] }
serde_json = "=1.0.154"
tokio = { version = "=1.54.1", features = ["macros", "net", "rt-multi-thread", "sync"] }
tracing = "=0.1.44"
