[package]
name = "realsense_tools"
version = "0.1.0"
edition = "2021"
publish = false

[dependencies]
image = { version = "*", default-features = false }
eframe = { version = "*", default-features = false, features = ["glow", "x11"] }
env_logger = "*"
glam = "*"
bytemuck = "*"
realsense-rust = "*"
