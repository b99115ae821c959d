[package]
name = "rebug"
version = "0.1.0"
edition = "2021"
publish = false

[dependencies]
anyhow = "1"
log = "0.4"
env_logger = "0.11"

[dependencies.clap]
version = "4"
features = ["derive"]
