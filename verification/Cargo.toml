[package]
name = "agent_reach"
version = "0.1.0"
edition = "2021"
publish = false

[dependencies]
agent-id = "*"
agent-id-handshake = "*"
base64 = "*"
chrono = "*"
urlencoding = "*"
uuid = { version = "*", features = ["v4"] }
axum = "*"
parking_lot = "*"
serde = { version = "*", features = ["derive"] }
serde_json = "*"
tokio = { version = "*", features = ["full"] }
