[package]
name = "agentnotify_desktop"
version = "0.1.0"
edition = "2021"
publish = false

[dependencies]
sha2 = "0.10"
reqwest = { version = "0.12", default-features = false }
serde = { version = "1", features = ["derive"] }
serde_json = "1"
zip = { version = "2", default-features = false, features = ["deflate"] }
uuid = { version = "1", features = ["v4"] }
