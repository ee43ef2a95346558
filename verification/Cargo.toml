[package]
name = "gpukit"
version = "0.1.0"
edition = "2021"
publish = false

[dependencies]
wgpu = { version = "=25.0.2", default-features = false, features = ["noop"] }
winit = "=0.30.13"
image = { version = "=0.25.10", default-features = false, features = ["png", "jpeg"] }
glam = "=0.34.1"
bytemuck = "=1.25.2"
pollster = "=1.0.1"
