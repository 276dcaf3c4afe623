[package]
name = "posthog_rs"
version = "0.1.0"
edition = "2021"
publish = false

[dependencies]
reqwest = { version = "*", features = ["json"] }
serde = { version = "1", features = ["derive"] }
serde_json = "1"
