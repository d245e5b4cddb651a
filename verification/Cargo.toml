[package]
name = "revolt"
version = "0.1.0"
edition = "2021"
publish = false

[dependencies]
tokio = { version = "*", features = ["rt", "rt-multi-thread", "sync", "time", "macros"] }
tokio-tungstenite = "*"
futures-util = "*"

[dev-dependencies]
serde_json = "*"
