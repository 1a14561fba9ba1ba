[package]
name = "radiance2d"
version = "0.1.0"
edition = "2021"
publish = false

[dependencies]
bytemuck = { version = "*", features = ["derive"] }
env_logger = "*"
nalgebra = "*"
palette = "*"
pollster = "*"
wgpu = "*"
winit = "*"
