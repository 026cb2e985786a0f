[package]
name = "nmosh"
version = "0.1.0"
edition = "2021"
publish = false

[dependencies]
serde = { version = "1", features = ["derive"] }
serde_json = "1"
midir = "=0.9.1"
libloading = "0.8"
log = "0.4"
env_logger = { version = "0.11", default-features = false }
