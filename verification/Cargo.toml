[package]
name = "driver_scan"
version = "0.1.0"
edition = "2021"
publish = false

[dependencies]
sha2 = "*"
serde = { version = "*", features = ["derive"] }
serde_json = "*"
serde-hex = "*"
structopt = "*"
log = "*"
pretty_env_logger = "*"
