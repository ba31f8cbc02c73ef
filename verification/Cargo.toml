[package]
name = "gpu_select"
version = "0.1.0"
edition = "2021"
publish = false

[dependencies]
anyhow = "1"
ash = "0.37"
shaderc = "0.8"
