[package]
name = "peer_chat"
version = "0.1.0"
edition = "2021"
publish = false

[dependencies]
serde_json = "=1.0.154"
anyhow = "=1.0.104"
tokio = { version = "=1.54.1", features = ["rt-multi-thread", "signal", "time"] }
iroh = { version = "=1.4.1", default-features = false, features = ["tls-ring"] }
