[package]
name = "hyprcrop_platform"
version = "0.1.0"
edition = "2021"
publish = false

[dependencies]
image = { version = "*", default-features = false }
memmap2 = "*"
nix = { version = "*", features = ["fs", "poll"] }
serde = { version = "*", features = ["derive"] }
serde_json = "*"
wayland-client = "*"
