[package]
name = "webpage_app"
version = "0.1.0"
edition = "2021"
publish = false

[dependencies]
anyhow = "=1.0.104"
serde = { version = "=1.0.229", features = ["derive"] }
url = "=2.5.8"

[dev-dependencies]
serde_json = "1"
