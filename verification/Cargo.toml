[package]
name = "visit_counter"
version = "0.1.0"
edition = "2021"
publish = false

[dependencies]
http = "1"
axum = "*"
bb8-redis = "*"
clap = { version = "4", features = ["derive"] }
opentelemetry = "*"
opentelemetry-otlp = { version = "*", default-features = false, features = ["grpc-tonic", "trace"] }
opentelemetry_sdk = "*"
serde = { version = "1", features = ["derive"] }
serde_yaml = "0.9"
tokio = { version = "1", features = ["full"] }
tower-http = { version = "*", features = ["trace"] }
tracing = "0.1"
tracing-opentelemetry = "*"
tracing-subscriber = { version = "0.3", features = ["env-filter"] }
