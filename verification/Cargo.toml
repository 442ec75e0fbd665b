[package]
name = "slash"
version = "0.1.0"
edition = "2021"
publish = false

[dependencies]
gl = "0.14"
glutin = "0.19"
nalgebra = "0.32"
rusttype = { version = "0.8", features = ["gpu_cache"] }
