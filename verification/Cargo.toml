[package]
name = "boids"
version = "0.1.0"
edition = "2021"
publish = false

[dependencies]
rand = "0.8"
rand_pcg = "0.3"
bytemuck = { version = "1", features = ["derive"] }
wgpu = "0.12"
winit = "0.26"
pollster = "0.2"
env_logger = "0.9"
