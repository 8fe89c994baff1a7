[package]
name = "lnbits_rs"
version = "0.1.0"
edition = "2021"
publish = false

[dependencies]
anyhow = "1"
axum = "0.7"
chrono = { version = "0.4", default-features = false, features = ["std"] }
futures = "0.3"
futures-util = { version = "0.3", features = ["sink"] }
log = "0.4"
reqwest = { version = "0.12", default-features = false, features = ["stream", "rustls-tls", "socks"] }
serde = { version = "1", features = ["derive"] }
serde_json = "1"
tokio = { version = "1", features = ["rt", "rt-multi-thread", "sync", "time", "macros", "net"] }
tokio-tungstenite = "0.24"
tracing = "0.1"
