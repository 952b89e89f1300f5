[package]
name = "starviewer"
version = "0.1.0"
edition = "2021"
publish = false

[dependencies]
cgmath = "=0.18.0"
csv = "=1.4.0"
env_logger = "=0.11.11"
imgui = "=0.12.0"
imgui-sdl3 = "=0.4.1"
kiddo = "=5.3.3"
log = "=0.4.35"
sdl3 = "*"
serde = { version = "=1.0.229", features = ["derive"] }
