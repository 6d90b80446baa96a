[package]
name = "mush"
version = "0.1.0"
edition = "2021"
publish = false

[dependencies]
anyhow = "=1.0.104"
bevy_ecs = { version = "=0.12.1", default-features = false }
bytemuck = { version = "=1.25.2", features = ["derive"] }
env_logger = { version = "=0.10.2", default-features = false }
glam = { version = "=0.24.2", features = ["bytemuck"] }
image = { version = "=0.24.9", default-features = false, features = ["png"] }
log = "=0.4.34"
pollster = "=0.3.0"
wgpu = { version = "=0.19.4", default-features = false, features = ["wgsl"] }
winit = { version = "0.30", default-features = false, features = ["rwh_06", "x11"] }
