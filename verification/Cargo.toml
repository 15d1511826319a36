[package]
name = "specter"
version = "0.1.0"
edition = "2021"
publish = false

[dependencies]
webrtc = "=0.17.2"
tokio = { version = "=1.53.2", features = ["rt-multi-thread", "sync", "time"] }
serde_json = "=1.0.151"
uuid = { version = "=1.27.0", features = ["v4"] }
log = "=0.4.34"
env_logger = "=0.11.11"
