[package]
name = "clipboard_master"
version = "0.1.0"
edition = "2021"
publish = false

[dependencies]
wayland-client = "0.30"
wayland-protocols-wlr = { version = "0.1", features = ["client"] }
