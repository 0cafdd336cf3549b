[package]
name = "rive_demo"
version = "0.1.0"
edition = "2021"
publish = false

[dependencies]
pollster = "0.3"
vello = "0.1.0"
wgpu = "0.19"
winit = "0.30"
