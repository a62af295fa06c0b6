[package]
name = "nested_backend"
version = "0.1.0"
edition = "2021"
publish = false

[dependencies]
anyhow = "*"
calloop = "*"
smithay-client-toolkit = { version = "*", default-features = false, features = ["calloop"] }
wayland-client = "*"
wayland-protocols = { version = "*", features = ["client", "unstable", "staging"] }
