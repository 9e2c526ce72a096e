[package]
name = "pbr"
version = "0.1.0"
edition = "2021"
publish = false

[dependencies]
glam = { version = "*", features = ["bytemuck"] }
bytemuck = "*"
gl = "*"
gltf = "*"
eyre = "*"
cstr = "*"
