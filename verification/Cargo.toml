[package]
name = "twedia"
version = "0.1.0"
edition = "2021"
publish = false

[dependencies]
ffmpeg-next = "=9.0.0"
iced = { version = "=0.14.0", default-features = false, features = ["image", "tiny-skia", "x11", "smol"] }
rfd = { version = "=0.17.2", default-features = false, features = ["xdg-portal"] }
smol = "=2.0.2"
