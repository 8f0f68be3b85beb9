[package]
name = "canvas_shell"
version = "0.1.0"
edition = "2021"
publish = false

[dependencies]
winit = "=0.30.13"
femtovg = { version = "=0.27.0", features = ["wgpu"] }
glutin = "=0.32.3"
glutin-winit = "=0.5.0"
raw-window-handle = "=0.6.2"
egui = "=0.36.2"
egui-wgpu = "=0.36.2"
egui-winit = "=0.36.2"
wgpu = "=30.0.1"
