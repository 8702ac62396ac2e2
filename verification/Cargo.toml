[package]
name = "egui_winit_ash_integration"
version = "0.1.0"
edition = "2021"
publish = false

[dependencies]
ash = "=0.38.0"
egui = "=0.27.2"
egui-winit = { version = "=0.27.2", default-features = false, features = ["x11"] }
raw-window-handle = "=0.6.2"
bytemuck = "1"
