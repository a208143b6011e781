[package]
name = "industria"
version = "0.1.0"
edition = "2021"
publish = false

[dependencies]
ash = "0.37"
ash-window = "0.12"
raw-window-handle = "0.5"
winit = { version = "0.29", default-features = false, features = ["rwh_05", "x11"] }
log = "0.4"
simple_logger = { version = "4", default-features = false }
