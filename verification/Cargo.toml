[package]
name = "whatlang_cli"
version = "0.1.0"
edition = "2021"
publish = false

[dependencies]
whatlang = "*"
serde_json = "*"
serde = { version = "*", features = ["derive"] }
clap = { version = "*", features = ["derive"] }
env_logger = "*"
log = "*"
