[package]
name = "esp_audio_bridge"
version = "0.1.0"
edition = "2021"
publish = false

[dependencies]
base64 = "*"
tokio = { version = "*", features = ["full"] }
axum = "*"
serde = { version = "*", features = ["derive"] }
serde_json = "*"
socket2 = "*"
tokio-tungstenite = "*"
futures-util = "*"
anyhow = "*"
clap = { version = "*", features = ["derive", "env"] }
tracing = "*"
tracing-subscriber = { version = "*", features = ["env-filter"] }
