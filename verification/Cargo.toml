[package]
name = "novastar"
version = "0.1.0"
edition = "2021"
publish = false

[dependencies]
wgpu = "*"
winit = "*"
wgpu_text = "*"
pollster = "*"
env_logger = "*"
