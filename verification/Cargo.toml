[package]
name = "watermarker"
version = "0.1.0"
edition = "2021"
publish = false

[dependencies]
image = { version = "0.24", default-features = false, features = ["jpeg", "png", "bmp"] }
rfd = { version = "0.14", default-features = false }
egui = "0.26"
egui_extras = { version = "0.26", features = ["file", "image"] }
env_logger = { version = "0.11", default-features = false }
