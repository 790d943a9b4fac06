[package]
name = "tracker"
version = "0.1.0"
edition = "2021"
publish = false

[dependencies]
eframe = { version = "=0.33.3", default-features = false, features = ["default_fonts", "glow", "x11"] }
cpal = "=0.17.3"
rtrb = "=0.3.6"
serde = { version = "1", features = ["derive"] }
