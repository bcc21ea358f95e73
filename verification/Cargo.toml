[package]
name = "vk_playground"
version = "0.1.0"
edition = "2021"
publish = false

[dependencies]
ash = "0.32"
winit = "0.28"
image = "0.23"
cgmath = "0.18"
memoffset = "0.6"
