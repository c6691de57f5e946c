[package]
name = "ffmpeg-next"
version = "0.1.0"
edition = "2021"
publish = false

[dependencies]
bitflags = "1.2"
ffmpeg-sys-next = "4.3"
libc = "0.2"
