[package]
name = "twitch"
version = "0.1.0"
edition = "2021"
publish = false

[dependencies]
anyhow = "1"
clap = "2"
dirs = "*"
env_logger = "*"
log = "0.4"
rusqlite = "0.24"
serde = { version = "1", features = ["derive"] }
serde_json = "1"
url = "2"
