[package]
name = "scene_persistence"
version = "0.1.0"
edition = "2021"
publish = false

[dependencies]
ron = "0.8"
serde = { version = "1", features = ["derive"] }
bevy = { version = "0.9", default-features = false, features = ["render"] }
bevy_rapier3d = "0.19"
smooth-bevy-cameras = "0.6"
