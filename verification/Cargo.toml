[package]
name = "deepgram"
version = "0.1.0"
edition = "2021"
publish = false

[dependencies]
bytes = "1"
futures = "0.3"
http = "1"
pin-project = "1"
serde = { version = "1", features = ["derive"] }
serde_json = "1"
serde_urlencoded = "0.7"
tokio = { version = "1", features = ["rt", "net", "macros"] }
tokio-tungstenite = "0.26"
tungstenite = "0.26"
url = "2"
