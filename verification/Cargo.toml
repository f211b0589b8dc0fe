[package]
name = "capture-card-viewer"
version = "0.1.0"
edition = "2021"
publish = false

[dependencies]
anyhow = "1"
arc-swap = "1"
cpal = "0.17"
directories = "6"
eframe = { version = "0.37", default-features = false, features = ["default_fonts", "glow", "x11"] }
log = "0.4"
nokhwa = { version = "0.10", features = ["input-native"] }
ringbuf = "0.4"
serde = { version = "1", features = ["derive"] }
simplelog = "0.12"
toml = "0.9"
