[package]
name = "hyperliquid_ws"
version = "0.1.0"
edition = "2021"
publish = false

[dependencies]
serde = { version = "1", features = ["derive"] }
serde_json = "1"
uuid = "1"
either = "1"
log = "0.4"
env_logger = "0.10"
futures-util = "0.3"
tokio = { version = "1", features = ["full"] }
tokio-tungstenite = "0.20"
