[package]
name = "comfyui-client"
version = "0.1.0"
edition = "2021"
publish = false

[dependencies]
bytes = "1"
futures-util = "0.3"
log = { version = "0.4", features = ["kv"] }
pin-project-lite = "0.2"
reqwest = { version = "0.12", default-features = false, features = ["json", "multipart", "stream"] }
serde = { version = "1", features = ["derive"] }
serde_json = "1"
thiserror = "2"
tokio = { version = "1", features = ["rt", "macros", "sync", "time"] }
tokio-stream = "0.1"
tokio-tungstenite = "0.26"
url = "2"
uuid = { version = "1", features = ["v4"] }
