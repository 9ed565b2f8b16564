[package]
name = "kelp_2d"
version = "0.1.0"
edition = "2021"
publish = false

[dependencies]
bytemuck = { version = "1", features = ["min_const_generics"] }
naga = "0.19"
pollster = "0.3"
raw-window-handle = "0.6"
wgpu = { version = "0.19", features = ["glsl"] }
