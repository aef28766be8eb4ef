[package]
name = "frame_extract"
version = "0.1.0"
edition = "2021"
publish = false

[dependencies]
ffmpeg-next = "*"
image = { version = "*", default-features = false, features = ["png"] }
rayon = "*"
