[package]
name = "render_core"
version = "0.1.0"
edition = "2021"
publish = false

[dependencies]
moka = { version = "0.12", features = ["sync"] }
wgpu = "24"
winit = "0.30"
tokio = { version = "1", features = ["rt-multi-thread"] }
image = { version = "0.25", default-features = false, features = ["png", "jpeg"] }
cgmath = "0.18"
bytemuck = { version = "1", features = ["derive"] }
log = "0.4"
