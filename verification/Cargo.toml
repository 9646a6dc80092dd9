[package]
name = "raytracing_lib"
version = "0.1.0"
edition = "2021"
publish = false

[dependencies]
cgmath = "0.18"
rand = "0.8"
image = { version = "0.24", default-features = false, features = ["png"] }
