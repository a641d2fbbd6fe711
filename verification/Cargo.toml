[package]
name = "gb_core"
version = "0.1.0"
edition = "2021"
publish = false

[dependencies]
clap = { version = "4", features = ["derive"] }
pixels = "0.11"
winit = "0.27"
winit_input_helper = "0.13"
