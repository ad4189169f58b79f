[package]
name = "sentiric-tts-gateway"
version = "0.1.0"
edition = "2021"
publish = false

[dependencies]
anyhow = "=1.0.104"
chrono = "=0.4.45"
config = "=0.14.1"
futures = "=0.3.34"
hyper = { version = "=0.14.32", features = ["server", "tcp", "http1", "http2"] }
metrics-exporter-prometheus = { version = "=0.15.3", default-features = false }
reqwest = { version = "=0.12.28", default-features = false, features = ["json", "rustls-tls"] }
rustls = { version = "=0.23.46", default-features = false, features = ["ring", "std", "logging", "tls12"] }
serde = { version = "=1.0.229", features = ["derive"] }
serde_json = "=1.0.154"
thiserror = "=1.0.69"
tokio = { version = "=1.54.1", features = ["full"] }
tokio-stream = "=0.1.19"
tonic = { version = "=0.12.3", features = ["tls"] }
tracing = "=0.1.44"
tracing-core = "=0.1.36"
tracing-subscriber = { version = "=0.3.23", features = ["env-filter", "fmt"] }
