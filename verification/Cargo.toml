[package]
name = "voicetabs"
version = "0.1.0"
edition = "2021"
publish = false

[dependencies]
anyhow = "1"
async-trait = "0.1"
cpal = "0.15"
crossbeam-channel = "0.5"
directories = "5"
hound = "3"
keyring = "3"
parking_lot = "0.12"
reqwest = { version = "0.12", default-features = false, features = ["multipart", "json", "rustls-tls"] }
rusqlite = { version = "0.32", features = ["bundled"] }
secrecy = "0.10"
serde = { version = "1", features = ["derive"] }
serde_json = "1"
thiserror = "1"
tokio = { version = "1", features = ["full"] }
tracing = "0.1"
tracing-appender = "0.2"
tracing-subscriber = { version = "0.3", features = ["env-filter"] }
uuid = { version = "1", features = ["v4"] }
voice_activity_detector = "*"
