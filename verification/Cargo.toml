[package]
name = "vulcor"
version = "0.1.0"
edition = "2021"
publish = false

[dependencies]
anyhow = "1"
ash = { version = "0.38", features = ["linked"] }
ash-window = "0.13"
cgmath = "0.18"
log = "0.4"
raw-window-handle = "0.6"
winit = "0.30"
