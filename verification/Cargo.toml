[package]
name = "face_tracking"
version = "0.1.0"
edition = "2021"
publish = false

[dependencies]
chrono = "*"
env_logger = "*"
image = "*"
log = "*"
tokio = { version = "*", features = ["rt", "sync", "time", "macros"] }
