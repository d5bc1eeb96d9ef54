[package]
name = "vulkan_raytracing"
version = "0.1.0"
edition = "2021"
publish = false

[dependencies]
ash = "0.38"
ash-window = "0.13"
bytemuck = "1"
png = "0.17"
raw-window-handle = "0.6"
