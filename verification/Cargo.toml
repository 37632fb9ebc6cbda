[package]
name = "parkour_core"
version = "0.1.0"
edition = "2021"
publish = false

[dependencies]
bevy = { version = "0.12", default-features = false }
bevy_xpbd_3d = { version = "0.3", default-features = false, features = ["3d", "f32"] }
bevy_tweening = { version = "0.9", default-features = false }
instant = "0.1"
serde = { version = "1", features = ["derive"] }
serde_json = "1"
