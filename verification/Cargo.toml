[package]
name = "b0xx_updater"
version = "0.1.0"
edition = "2021"
publish = false

[dependencies]
serde = { version = "1", features = ["derive"] }
toml = "0.5"
serialport = { version = "4", default-features = false }
clap = "2"
log = "0.4"
pretty_env_logger = "0.4"
