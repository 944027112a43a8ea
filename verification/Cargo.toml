[package]
name = "native_websocket"
version = "0.1.0"
edition = "2021"
publish = false

[dependencies]
base64 = "=0.22.1"
bevy = { version = "=0.14.2", default-features = false }
bevy_tasks = { version = "=0.14.2", features = ["multi_threaded"] }
chrono = { version = "=0.4.45", default-features = false, features = ["std", "now"] }
dotenv = "=0.15.0"
mio = { version = "=1.2.4", features = ["net", "os-poll"] }
native-tls = "=0.2.18"
serde_json = "=1.0.154"
tungstenite = "=0.24.0"
url = "=2.5.8"
