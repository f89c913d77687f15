[package]
name = "engine"
version = "0.1.0"
edition = "2021"
publish = false

[dependencies]
vulkano = "=0.21.0"
vulkano-shaders = "=0.21.0"
vulkano-win = "=0.21.0"
winit = "=0.24.0"
