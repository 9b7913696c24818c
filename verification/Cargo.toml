[package]
name = "chip8"
version = "0.1.0"
edition = "2021"
publish = false

[dependencies]
rand = "0.8"
clap = { version = "3", features = ["derive"] }
winit = "0.26"
winit_input_helper = "0.12"
pixels = "0.9"
winapi = { version = "0.3", features = ["utilapiset"] }
