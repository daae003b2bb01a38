[package]
name = "bubble_meet"
version = "0.1.0"
edition = "2021"
publish = false

[dependencies]
uuid = { version = "1", features = ["serde", "v4"] }
opus = "0.3"
serde = { version = "1", features = ["derive"] }
serde_json = "1"
webrtc = "0.12"
tokio = { version = "1", features = ["full"] }
axum = { version = "0.7", features = ["ws"] }
axum-extra = { version = "0.9", features = ["typed-header"] }
futures = "0.3"
log = "0.4"
log4rs = "1"
anyhow = "1"
