[package]
name = "delfi_engine"
version = "0.1.0"
edition = "2021"
publish = false

[dependencies]
cgmath = "0.18"
vulkano = "0.34"
vulkano-shaders = "0.34"
vulkano-util = "0.34"
winit = "0.28"
