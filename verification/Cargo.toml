[package]
name = "slam_viz"
version = "0.1.0"
edition = "2021"
publish = false

[dependencies]
anyhow = "1"
bytemuck = { version = "1", features = ["derive"] }
egui = "0.29"
egui_plot = "0.29"
egui_tiles = "0.10"
egui-wgpu = "0.29"
egui-winit = "0.29"
glam = "0.29"
pollster = "0.3"
rfd = { version = "0.15", default-features = false, features = ["xdg-portal", "tokio"] }
serde = { version = "1", features = ["derive"] }
serde_json = "1"
tracing = "0.1"
tracing-subscriber = "0.3"
wgpu = "22"
winit = "0.30"
