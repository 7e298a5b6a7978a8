[package]
name = "echover"
version = "0.1.0"
edition = "2021"
publish = false

[dependencies]
ash = "0.38"
ash-window = "0.13"
raw-window-handle = "0.6"
winit = "0.30"
rodio = "*"
rusqlite = { version = "*", features = ["bundled"] }
fontdue = "0.9"
tiny-skia = "0.11"
walkdir = "2"
rfd = "*"
femtovg = "*"
tracing = "0.1"
tracing-subscriber = "0.3"
