[package]
name = "telera"
version = "0.1.0"
edition = "2021"
publish = false

[dependencies]
bytemuck = { version = "1", features = ["derive"] }
clay-layout = "*"
image = { version = "0.25", default-features = false, features = ["png"] }
pollster = "0.4"
wgpu = "24"
winit = "0.30"
