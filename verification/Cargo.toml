[package]
name = "render_core"
version = "0.1.0"
edition = "2021"
publish = false

[dependencies]
image = { version = "0.25", default-features = false, features = ["png", "jpeg"] }
glutin = "0.32"
glutin-winit = "0.5"
winit = "0.30"
raw-window-handle = "0.6"
nalgebra-glm = "0.19"
gl = "0.14"
log = "0.4"
env_logger = "0.11"
anyhow = "1"
