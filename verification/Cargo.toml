[package]
name = "vulkano_win"
version = "0.1.0"
edition = "2021"
publish = false

[dependencies]
vulkano = "*"
winit = { version = "*", default-features = false, features = ["x11", "rwh_06"] }
