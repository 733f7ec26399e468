[package]
name = "wayland_displays"
version = "0.1.0"
edition = "2021"
publish = false

[dependencies]
calloop = "0.7"
kurbo = "0.9"
lazy_static = "1.4"
tracing = "0.1"
wayland-client = "0.29"
wayland-protocols = { version = "0.29", features = ["client", "unstable_protocols"] }
