[package]
name = "kanboard"
version = "0.1.0"
edition = "2021"
publish = false

[dependencies]
toml = "*"
csv = "*"
chrono = "*"
clap = { version = "*", features = ["derive"] }
log = "*"
pretty_env_logger = "*"
