[package]
name = "frameloop"
version = "0.1.0"
edition = "2021"
publish = false

[dependencies]
winit = { version = "0.29", default-features = false, features = ["x11", "rwh_06"] }
pollster = "0.3"
env_logger = { version = "0.11", default-features = false }
log = "0.4"
