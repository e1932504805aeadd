[package]
name = "rutebot"
version = "0.6.0"
edition = "2021"
publish = false

[dependencies]
bytes = "=1.12.1"
futures-util = "=0.3.34"
hyper = { version = "=0.14.32", features = ["client", "http1", "http2", "tcp", "stream"] }
hyper-multipart-rfc7578 = "0.8"
hyper-tls = "=0.5.0"
serde = { version = "=1.0.229", features = ["derive"] }
serde_json = "=1.0.154"
tokio = { version = "=1.54.1", features = ["time", "rt"] }
