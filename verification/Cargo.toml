[package]
name = "dmc"
version = "0.1.0"
edition = "2021"
publish = false

[dependencies]
tokio = { version = "1", features = ["full"] }
serde = { version = "1", features = ["derive"] }
serde_json = "1"
uuid = "1"
futures = "0.3"
tokio-stream = "0.1"
tokio-tungstenite = "*"
tungstenite = "*"
btleplug = "*"
async-trait = "0.1"
bincode = "1"
memmap = "0.7"
vigem-client = "*"
websocket = { version = "*", default-features = false, features = ["sync"] }
