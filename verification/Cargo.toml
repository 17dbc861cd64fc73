[package]
name = "splatoon_client"
version = "0.1.0"
edition = "2021"
publish = false

[dependencies]
serde_json = "1"
uuid = { version = "1", features = ["v4"] }
chrono = "0.4"
tokio = { version = "1", features = ["net", "rt", "rt-multi-thread", "macros", "sync"] }
tokio-tungstenite = "0.20"
futures-util = "0.3"
