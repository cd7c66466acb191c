[package]
name = "slideshow"
version = "0.1.0"
edition = "2021"
publish = false

[dependencies]
chrono = "0.4"
kamadak-exif = "*"
rand = "0.9"
regex = "1"
walkdir = "2"
serde = { version = "1", features = ["derive"] }
env_logger = "*"
rocket = { version = "0.5", features = ["json"] }
