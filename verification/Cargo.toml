[package]
name = "tachy_daemon"
version = "0.1.0"
edition = "2021"
publish = false

[dependencies]
serde = { version = "1", features = ["derive"] }
serde_json = "1"
uuid = { version = "1", features = ["v4"] }
hex = "0.4"
base64 = "0.22"
tokio = { version = "1", default-features = false, features = ["sync", "rt", "macros"] }
reqwest = { version = "0.12", default-features = false, features = ["json", "blocking"] }
