[package]
name = "axum-tracing-opentelemetry"
version = "0.1.0"
edition = "2021"
publish = false

[dependencies]
http = "=1.5.0"
hex = "=0.4.3"
axum = "=0.8.9"
tower = { version = "=0.5.3", features = ["util"] }
tower-http = { version = "=0.6.11", features = ["trace"] }
tonic = "=0.14.6"
http-body = "=1.1.0"
futures-core = "=0.3.34"
futures-util = "=0.3.34"
pin-project-lite = "=0.2.17"
tracing = "=0.1.44"
tracing-subscriber = { version = "=0.3.23", features = ["env-filter", "json", "fmt"] }
tracing-logfmt = "*"
tracing-opentelemetry = "=0.34.0"
opentelemetry = "=0.33.1"
opentelemetry_sdk = { version = "=0.33.1", features = ["rt-tokio"] }
opentelemetry-otlp = { version = "=0.33.1", features = ["grpc-tonic"] }
opentelemetry-proto = { version = "=0.33.1", default-features = false, features = ["gen-tonic", "trace", "logs", "metrics"] }
opentelemetry-stdout = "*"
tokio = { version = "=1.54.1", features = ["rt-multi-thread", "macros", "net", "time", "sync"] }
tokio-stream = { version = "=0.1.19", features = ["net"] }
thiserror = "=2.0.21"
serde = { version = "=1.0.229", features = ["derive"] }
serde_json = "=1.0.154"
