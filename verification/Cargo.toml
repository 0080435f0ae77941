[package]
name = "slsh_engine"
version = "0.1.0"
edition = "2021"
publish = false

[dependencies]
ash = "0.37"
glam = "0.24"
glfw = { version = "0.52", features = ["vulkan"] }
