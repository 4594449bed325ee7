[package]
name = "engine"
version = "0.1.0"
edition = "2021"
publish = false

[dependencies]
anyhow = "1"
ash = "0.38"
gpu-allocator = { version = "0.27", default-features = false, features = ["vulkan"] }
