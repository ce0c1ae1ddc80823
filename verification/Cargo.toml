[package]
name = "hotdownloader"
version = "0.1.0"
edition = "2021"
publish = false

[dependencies]
axum = "0.8"
tokio = { version = "1", features = ["full"] }
tokio-util = { version = "*", features = ["io"] }
futures-util = "*"
serde = { version = "1", features = ["derive"] }
serde_json = "1"
log = "0.4"
env_logger = "*"
lofty = "0.22"
rand = "0.9"
url = "2"
