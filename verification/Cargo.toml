[package]
name = "gauge"
version = "0.1.0"
edition = "2021"
publish = false

[dependencies]
rand = "*"
rusttype = "*"
winit = "*"
pixels = "*"
bon = "*"
