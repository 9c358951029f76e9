[package]
name = "image_tool"
version = "0.1.0"
edition = "2021"
publish = false

[dependencies]
image = { version = "0.25", default-features = false, features = ["jpeg", "png", "gif", "bmp", "tiff", "webp"] }
kamadak-exif = "0.5"
walkdir = "2"
rayon = "1"
indicatif = { version = "0.17", features = ["rayon"] }
clap = { version = "4", features = ["derive"] }
env_logger = "0.11"
log = "0.4"
thiserror = "1"
