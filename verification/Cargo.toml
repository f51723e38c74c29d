[package]
name = "weevibin"
version = "0.1.0"
edition = "2021"
publish = false

[dependencies]
futures-util = "0.3"
log = "0.4"
serde = { version = "1", features = ["derive"] }
serde_json = "1"
time = "0.3"
tokio = { version = "1", features = ["macros", "rt", "time"] }
tokio-tungstenite = "0.20"
tungstenite = "0.20"
url = "2"
