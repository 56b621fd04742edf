[package]
name = "vulkan_tutorial"
version = "0.1.0"
edition = "2021"
publish = false

[dependencies]
ash = "*"
ash-window = "*"
winit = "*"
num = "*"
