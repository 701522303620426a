[package]
name = "kullat"
version = "0.1.0"
edition = "2021"
publish = false

[dependencies]
color = "=0.3.3"
color-eyre = "=0.6.5"
glam = "=0.34.1"
mint = "=0.5.9"
smithay = { version = "=0.7.0", default-features = false, features = ["backend_egl", "backend_vulkan", "backend_winit", "renderer_gl"] }
stardust-xr-fusion = "=0.52.0"
tokio = { version = "=1.53.2", features = ["rt", "sync", "macros", "signal"] }
tracing = "=0.1.44"
tracing-subscriber = "=0.3.23"
wayland-egl = "=0.32.11"
winit = "=0.30.13"
