[package]
name = "ztunnel"
version = "0.1.0"
edition = "2021"
publish = false

[dependencies]
anyhow = "=1.0.104"
bytes = "=1.12.1"
drain = "=0.1.2"
etherparse = "=0.13.0"
futures = "=0.3.34"
http-body-util = "=0.1.5"
hyper = { version = "=1.12.0", features = ["full"] }
hyper-util = { version = "=0.1.21", features = ["client", "http1", "http2", "server", "tokio"] }
opentelemetry-otlp = { version = "=0.14.0", features = ["tonic"] }
opentelemetry_sdk = { version = "=0.21.2", features = ["rt-tokio"] }
prometheus-client = "=0.22.3"
prometheus-parse = "=0.2.5"
serde = { version = "=1.0.229", features = ["derive"] }
serde_yaml = "=0.9.34"
socket2 = { version = "=0.6.5", features = ["all"] }
tokio = { version = "=1.54.1", features = ["full"] }
tokio-tun = "=0.11.5"
tokio-util = { version = "=0.7.20", features = ["io"] }
tracing = "=0.1.44"
tracing-opentelemetry = "=0.22.0"
tracing-subscriber = { version = "=0.3.23", features = ["env-filter"] }
