[package]
name = "cave_world"
version = "0.1.0"
edition = "2021"
publish = false

[dependencies]
byteorder = "1"
log = "0.4"
pretty_env_logger = "0.4"
winit = { version = "0.28", default-features = false, features = ["x11"] }
