[package]
name = "tskm"
version = "0.1.0"
edition = "2021"
publish = false

[dependencies]
eframe = { version = "*", default-features = false, features = ["default_fonts", "glow", "x11"] }
egui = "*"
serde = { version = "1", features = ["derive"] }
serde_json = "1"
dirs-next = "2"
