[package]
name = "ntfy_api"
version = "0.1.0"
edition = "2021"
publish = false

[dependencies]
reqwest = "=0.13.5"
serde = { version = "=1.0.229", features = ["derive"] }
serde_json = "=1.0.151"
