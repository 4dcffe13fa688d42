[package]
name = "render_core"
version = "0.1.0"
edition = "2021"
publish = false

[dependencies]
wgpu = "0.14"
winit = "0.27"
pollster = "0.2"
bytemuck = { version = "1", features = ["derive"] }
