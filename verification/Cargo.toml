[package]
name = "palm"
version = "0.1.0"
edition = "2021"
publish = false

[dependencies]
anyhow = "=1.0.104"
chrono = "=0.4.45"
eframe = { version = "=0.37.0", default-features = false, features = ["default_fonts", "glow", "x11", "wayland"] }
egui_tiles = "=0.18.0"
hex = "=0.4.3"
log = "=0.4.34"
simplelog = "=0.12.2"
tokio = { version = "=1.54.1", features = ["rt-multi-thread", "net", "io-util", "time", "sync", "macros"] }
