[package]
name = "wayvek"
version = "0.1.0"
edition = "2021"
publish = false

[dependencies]
ash = "=0.38.0"
drm-fourcc = "=2.2.0"
rustix = { version = "=1.1.6", features = ["fs", "mm", "time"] }
thiserror = "=2.0.21"
wayland-client = "=0.31.15"
wayland-protocols = { version = "=0.32.13", features = ["client", "staging", "unstable"] }
zerocopy = { version = "=0.8.63", features = ["derive"] }
