[package]
name = "my_rust_pi_app"
version = "0.1.0"
edition = "2021"
publish = false

[dependencies]
anyhow = "*"
chrono = "*"
clap = "*"
env_logger = "*"
log = "*"
serde_json = "*"
