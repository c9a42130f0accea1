[package]
name = "wakey_2d_engine"
version = "0.1.0"
edition = "2021"
publish = false

[dependencies]
bytemuck = "1"
glyphon = "*"
pollster = "*"
wgpu = { version = "*", default-features = false, features = ["wgsl"] }
winit = { version = "0.30", default-features = false, features = ["rwh_06", "x11"] }
