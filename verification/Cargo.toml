[package]
name = "opengl_graphics"
version = "0.1.0"
edition = "2021"
publish = false

[dependencies]
piston2d-graphics = "*"
piston-texture = "*"
piston-viewport = "*"
shader_version = "*"
piston-shaders_graphics2d = "*"
glow = "*"
image = { version = "*", default-features = false, features = ["png", "jpeg"] }
rusttype = "*"
fnv = "*"
