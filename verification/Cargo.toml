[package]
name = "chip8"
version = "0.1.0"
edition = "2021"
publish = false

[dependencies]
rand = "0.8"
crossbeam-channel = "0.5"
winit = { version = "0.29", features = ["rwh_05"] }
winit_input_helper = "0.15"
