[package]
name = "panels"
version = "0.1.0"
edition = "2021"
publish = false

[dependencies]
bytemuck = "1"
wgpu = "0.11"
winit = "0.25"
pollster = "0.2"
env_logger = "0.9"
