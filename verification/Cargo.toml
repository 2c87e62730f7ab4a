[package]
name = "subpixel_life"
version = "0.1.0"
edition = "2021"
publish = false

[dependencies]
pixels = "0.15"
rand = "0.9"
winit = "0.30"
