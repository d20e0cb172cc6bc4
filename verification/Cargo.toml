[package]
name = "chip8_rust"
version = "0.1.0"
edition = "2021"
publish = false

[dependencies]
rand = "0.8"
pixels = "0.9"
winit = "0.26"
kira = "0.5"
toml = "0.5"
serde = "1"
serde_derive = "1"
