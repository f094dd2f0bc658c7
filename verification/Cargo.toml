[package]
name = "image_index"
version = "0.1.0"
edition = "2021"
publish = false

[dependencies]
image = { version = "*", default-features = false }
nalgebra = { version = "*", default-features = false }
