[package]
name = "vulkan_bootstrap"
version = "0.1.0"
edition = "2021"
publish = false

[dependencies]
glfw = "0.52"
vulkano = "0.32"
