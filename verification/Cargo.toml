[package]
name = "image_compresser"
version = "0.1.0"
edition = "2021"
publish = false

[dependencies]
image = "0.25"
webp = "0.3"
walkdir = "2"
rayon = "1"
clap = { version = "4", features = ["derive"] }
