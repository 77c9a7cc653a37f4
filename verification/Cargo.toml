[package]
name = "shaderview"
version = "0.1.0"
edition = "2021"
publish = false

[dependencies]
eframe = { version = "=0.22.0", default-features = false, features = ["glow"] }
egui = { version = "=0.22.0", default-features = false }
egui_glow = { version = "=0.22.0", default-features = false }
env_logger = { version = "=0.10.2", default-features = false }
glow = "=0.12.3"
image = { version = "=0.24.9", default-features = false, features = ["png"] }
log = "=0.4.34"
notify = "=6.1.1"
