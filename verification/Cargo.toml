[package]
name = "ptz_control"
version = "0.1.0"
edition = "2021"
publish = false

[dependencies]
nokhwa = { version = "0.10", features = ["input-native"] }
serde = { version = "1", features = ["derive"] }
serde_json = "1"
