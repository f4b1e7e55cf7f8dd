[package]
name = "tauri-plugin-websocket"
version = "0.1.0"
edition = "2021"
publish = false

[dependencies]
tokio-tungstenite = "*"
http = "1"
futures-util = "0.3"
tokio = { version = "1", features = ["sync", "net", "rt", "macros"] }
serde = { version = "1", features = ["derive"] }
serde_json = "1"
thiserror = "*"
rand = "*"
log = "0.4"
tauri = { version = "2", default-features = false }
