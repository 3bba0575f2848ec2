[package]
name = "pomegranate"
version = "0.1.0"
edition = "2021"
publish = false

[dependencies]
chrono = "*"
bollard = "*"
tokio = { version = "*", features = ["macros", "rt-multi-thread"] }
futures = "*"
async-trait = "*"
bytes = "*"
tonic = "*"
log = "*"
env_logger = "*"
