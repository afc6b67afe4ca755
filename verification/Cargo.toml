[package]
name = "shouna"
version = "0.1.0"
edition = "2021"
publish = false

[dependencies]
serde = { version = "1", features = ["derive"] }
serde_json = "1"
parking_lot = "0.12"
once_cell = "1"
log = "0.4"
env_logger = "0.11"
objc2 = "0.6"
objc2-app-kit = "0.3"
objc2-foundation = "0.3"
