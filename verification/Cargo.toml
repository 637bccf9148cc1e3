[package]
name = "ascii_video"
version = "0.1.0"
edition = "2021"
publish = false

[dependencies]
color-eyre = "=0.6.5"
ffmpeg-next = "=9.0.0"
image = { version = "=0.25.10", default-features = false, features = ["png"] }
terminal_size = "=0.4.4"
