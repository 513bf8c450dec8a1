[package]
name = "softbuffer"
version = "0.1.0"
edition = "2021"
publish = false

[dependencies]
raw-window-handle = "0.4.2"
tempfile = "3.3.0"
wayland-client = { version = "0.29", default-features = false, features = ["use_system_lib", "dlopen"] }
x11-dl = "2.19.1"
