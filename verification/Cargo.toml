[package]
name = "useragent-worker"
version = "0.1.0"
edition = "2021"
publish = false

[dependencies]
uaparser = "=0.6.4"
serde_json = "=1.0.154"
once_cell = "=1.21.4"
arrow-array = "=60.1.0"
arrow-buffer = "=60.1.0"
arrow-schema = "=60.1.0"
env_logger = "=0.11.11"
