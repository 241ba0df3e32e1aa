[package]
name = "clean_up"
version = "0.1.0"
edition = "2021"
publish = false

[dependencies]
chrono = "=0.4.45"
dirs = "=5.0.1"
walkdir = "=2.5.0"
notify-rust = "=4.18.2"
tray-icon = "=0.5.2"
winit = "=0.28.7"
image = { version = "=0.24.9", default-features = false, features = ["png"] }

[dev-dependencies]
tempfile = "3"
