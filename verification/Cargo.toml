[package]
name = "vector_sink"
version = "0.1.0"
edition = "2021"
publish = false

[dependencies]
http = "0.2"
tokio = { version = "1", features = ["sync", "rt"] }
hyper = { version = "0.14", features = ["client", "http2", "tcp"] }
hyper-openssl = "0.9"
hyper-proxy = { version = "0.9", default-features = false, features = ["openssl-tls"] }
tonic = "0.11"
tonic-health = "0.11"
tokio-stream = { version = "0.1", features = ["sync"] }
async-stream = "0.3"
stream-cancel = "0.8"
futures = "0.3"
toml = "0.8"
serde = { version = "1", features = ["derive"] }
