[package]
name = "azurge_core"
version = "0.1.0"
edition = "2021"
publish = false

[dependencies]
bytemuck = { version = "1", features = ["derive"] }
glam = "0.29"
pollster = "0.3"
wgpu = "22"
winit = "0.30"
