[package]
name = "sms_verification"
version = "0.1.0"
edition = "2021"
publish = false

[dependencies]
chrono = "0.4"
mongodb = "2"
rand = "0.8"
serde = { version = "1", features = ["derive"] }
tokio = { version = "1", features = ["sync"] }
