[package]
name = "dashwatch"
version = "0.1.0"
edition = "2021"
publish = false

[dependencies]
notify = "*"
log = "*"
env_logger = "*"
anyhow = "*"
