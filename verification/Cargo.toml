[package]
name = "rust_racer"
version = "0.1.0"
edition = "2021"
publish = false

[dependencies]
bevy = { version = "0.18.1", default-features = false }
bevy_camera = { version = "0.18", default-features = false }
bevy_rapier3d = { version = "0.34.0", default-features = false, features = ["dim3"] }
rand = "0.10.1"
