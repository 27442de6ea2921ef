[package]
name = "rustcraft"
version = "0.1.0"
edition = "2021"
publish = false

[dependencies]
ash = "0.31"
cgmath = "0.17"
winit = { version = "0.22", features = ["serde"] }
serde = { version = "1", features = ["derive"] }
bincode = "1.3"
