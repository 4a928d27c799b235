[package]
name = "libits"
version = "0.1.0"
edition = "2021"
publish = false

[dependencies]
rumqttc = { version = "=0.24.0", features = ["websocket"] }
rustls-pki-types = "=1.15.1"
opentelemetry = "0.23"
opentelemetry_sdk = { version = "0.23", features = ["rt-tokio"] }
opentelemetry-otlp = { version = "0.16", default-features = false, features = ["http-proto", "reqwest-client", "trace"] }
reqwest = { version = "=0.11.27", default-features = false, features = ["rustls-tls"] }

[dev-dependencies]
tokio = { version = "=1.54.1", features = ["rt-multi-thread"] }
