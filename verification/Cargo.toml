[package]
name = "eventbot"
version = "0.1.0"
edition = "2021"
publish = false

[dependencies]
chrono = "0.4"
env_logger = "0.10"
fasteval = "0.2"
futures-channel = "0.3"
futures-util = "0.3"
html-escape = "0.2"
log = "0.4"
rand = "0.8"
reqwest = { version = "0.11", features = ["json"] }
serde = { version = "1", features = ["derive"] }
serde_json = "1"
serde_yaml = "0.9"
sysinfo = "0.29"
tokio = { version = "1", features = ["full"] }
tokio_schedule = "0.3"
tokio-tungstenite = "0.20"
