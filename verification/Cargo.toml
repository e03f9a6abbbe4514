[package]
name = "gpu_context"
version = "0.1.0"
edition = "2021"

[dependencies]
wgpu = "=0.15.1"
wgpu-types = "=0.15.2"
pollster = "=0.3.0"
