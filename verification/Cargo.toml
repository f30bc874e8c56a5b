[package]
name = "yopts"
version = "0.1.0"
edition = "2021"
publish = false

[dependencies]
anyhow = "=1.0.104"
atty = "=0.2.14"
clap = { version = "=4.6.7", features = ["derive", "string"] }
env_logger = "=0.10.2"
log = "=0.4.34"
thiserror = "=1.0.69"
yaml-rust = "=0.4.5"

[dev-dependencies]
regex = "=1.13.1"
