[package]
name = "nade"
version = "0.1.0"
edition = "2021"
publish = false

[dependencies]
uuid = { version = "=1.29.0", features = ["v4"] }
crossbeam-channel = "0.5"
rayon = "1"
log = "0.4"
env_logger = "0.11"
