[package]
name = "pmx_util"
version = "0.1.0"
edition = "2021"
publish = false

[dependencies]
encoding = "0.2"
cgmath = "0.18"
image = { version = "0.23", default-features = false, features = ["png", "bmp", "jpeg", "tga"] }
glium = "0.28"
