[package]
name = "render_core"
version = "0.1.0"
edition = "2021"
publish = false

[dependencies]
wgpu = { version = "=22.1.0", default-features = false, features = ["wgsl"] }
winit = { version = "=0.30.13", default-features = false, features = ["x11", "rwh_06"] }
pollster = "=0.3.0"
env_logger = { version = "=0.11.11", default-features = false }
