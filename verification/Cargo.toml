[package]
name = "pnio_hart"
version = "0.1.0"
edition = "2021"
publish = false

[dependencies]
uuid = { version = "*", features = ["v4"] }
clap = { version = "*", features = ["derive"] }
serde = { version = "*", features = ["derive"] }
serde_json = "*"
serde_yaml = "*"
chrono = "*"
log = "*"
env_logger = "*"
signal-hook = "*"
anyhow = "*"
hex = "*"
