[package]
name = "viewer_core"
version = "0.1.0"
edition = "2021"
publish = false

[dependencies]
cgmath = { version = "0.18", features = ["serde"] }
color-eyre = { version = "0.6", default-features = false }
glium = "0.34"
log = "0.4"
serde = { version = "1", features = ["derive"] }
winit = "0.29"
