[package]
name = "ui"
version = "0.1.0"
edition = "2021"
publish = false

[dependencies]
parley = "=0.12.0"
peniko = "=0.6.1"
winit = "=0.30.13"
clipboard-rs = "=0.3.5"
image = { version = "=0.25.10", default-features = false, features = ["bmp", "dds", "ff", "gif", "hdr", "ico", "jpeg", "png", "pnm", "qoi", "tga", "tiff", "webp"] }
