[package]
name = "imu_posture"
version = "0.1.0"
edition = "2021"
publish = false

[dependencies]
async-std = { version = "1", features = ["attributes"] }
safe_drive = "0.4"
