[package]
name = "twitch_app_api"
version = "0.1.3"
edition = "2021"
publish = false

[dependencies]
anyhow = "1"
reqwest = { version = "0.12", default-features = false }
serde = "1"
serde_json = "1"
