[package]
name = "moltis"
version = "0.1.0"
edition = "2021"
publish = false

[dependencies]
matrix-sdk = { version = "=0.16.1", default-features = false, features = ["rustls-tls"] }
secrecy = "=0.8.0"
serde = { version = "=1.0.229", features = ["derive"] }
tokio = { version = "=1.54.1", features = ["rt", "macros", "sync"] }
tokio-util = "=0.7.20"
tracing = "=0.1.44"
