[package]
name = "cam_controls"
version = "0.1.0"
edition = "2021"
publish = false

[dependencies]
anyhow = "1"
eframe = { version = "0.27", default-features = false, features = ["default_fonts", "glow"] }
v4l = "0.14"
