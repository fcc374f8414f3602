[package]
name = "ennona"
version = "0.1.0"
edition = "2021"
publish = false

[dependencies]
image = { version = "=0.25.10", default-features = false, features = ["png", "jpeg"] }
wgpu = { version = "=28.0.0", default-features = false, features = ["wgsl", "vulkan"] }
winit = { version = "=0.30.13", default-features = false, features = ["x11", "rwh_06"] }
egui = { version = "=0.33.3", default-features = false, features = ["default_fonts", "bytemuck"] }
egui_wgpu_backend = "=0.36.0"
egui_winit_platform = "=0.28.0"
ply-rs = "=0.1.3"
nalgebra = { version = "=0.35.0", default-features = false, features = ["std"] }
bytemuck = "=1.25.2"
structopt = "=0.3.26"
futures-lite = "=2.6.1"
log = "=0.4.34"
pretty_env_logger = "=0.5.0"
eyre = "=0.6.14"
