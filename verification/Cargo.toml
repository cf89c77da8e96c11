[package]
name = "voice_to_robot"
version = "0.1.0"
edition = "2021"
publish = false

[dependencies]
anyhow = "1"
clap = { version = "4", features = ["derive"] }
hound = "3.5"
eframe = { version = "0.29", default-features = false, features = ["default_fonts", "glow", "x11"] }
