[package]
name = "render_backend"
version = "0.1.0"
edition = "2021"
publish = false

[dependencies]
wgpu-types = "=29.0.4"
naga = { version = "=29.0.4", features = ["wgsl-in", "spv-in", "hlsl-out", "spv-out"] }
uuid = "=1.29.0"
async-channel = "=2.5.0"
