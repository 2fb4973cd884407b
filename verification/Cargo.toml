[package]
name = "polarimetry"
version = "0.1.0"
edition = "2021"
publish = false

[dependencies]
image = { version = "0.25", default-features = false, features = ["bmp", "dds", "exr", "ff", "gif", "hdr", "ico", "jpeg", "png", "pnm", "qoi", "tga", "tiff", "webp"] }
eframe = { version = "0.29", default-features = false, features = ["glow", "default_fonts"] }
egui_extras = { version = "0.29", default-features = false, features = ["image", "file"] }
env_logger = "0.11"
rfd = { version = "0.15", default-features = false, features = ["xdg-portal", "tokio"] }
tokio = { version = "1", features = ["rt-multi-thread", "time"] }
