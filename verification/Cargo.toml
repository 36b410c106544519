[package]
name = "cubeshadow"
version = "0.1.0"
edition = "2021"
publish = false

[dependencies]
wgpu = "=0.19.4"
pollster = "0.3"
bytemuck = { version = "1", features = ["derive"] }
cgmath = "0.18"
gltf = "1"
anyhow = "1"
regex = "1"
log = "0.4"
env_logger = "0.10"
