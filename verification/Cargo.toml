[package]
name = "bft_core"
version = "0.1.0"
edition = "2021"
publish = false

[dependencies]
log = "0.4"
env_logger = "0.10"
colored = "2"
chrono = "0.4"
atty = "0.2"
term = "0.7"
