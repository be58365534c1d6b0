[package]
name = "rust_learn_wgpu"
version = "0.1.0"
edition = "2021"
publish = false

[dependencies]
bytemuck = { version = "1", features = ["derive"] }
glam = { version = "*", features = ["bytemuck"] }
wgpu = "*"
winit = "0.30"
anyhow = "1"
log = "0.4"
env_logger = { version = "*", default-features = false }
pollster = "*"
web-time = "*"
