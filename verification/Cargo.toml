[package]
name = "keytap"
version = "0.1.0"
edition = "2021"
publish = false

[dependencies]
chrono = "*"
core-foundation = "*"
core-graphics = "*"
crossbeam-channel = "*"
dirs = "*"
log = "*"
rodio = "*"
serde = { version = "*", features = ["derive"] }
serde_json = "*"
simplelog = "*"
tray-icon = "*"
winit = "*"
