[package]
name = "rend3-pbr"
version = "0.1.0"
edition = "2021"
publish = false

[dependencies]
wgpu = "0.9"
glam = "0.17"
bytemuck = "1"
