[package]
name = "reaction_diffusion"
version = "0.1.0"
edition = "2021"
publish = false

[dependencies]
bytemuck = { version = "1", features = ["derive"] }
notify = "8"
pollster = "0.4"
wgpu = "25"
winit = "0.30"
