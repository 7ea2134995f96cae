[package]
name = "retro_av"
version = "0.1.0"
edition = "2021"
publish = false

[dependencies]
crossbeam-channel = "*"
ffmpeg-next = "*"
