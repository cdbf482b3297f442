[package]
name = "bevy_urdf"
version = "0.1.0"
edition = "2021"
publish = false

[dependencies]
bevy = { version = "=0.16.1", default-features = false, features = ["bevy_asset", "bevy_pbr", "bevy_render", "bevy_log"] }
bevy_rapier3d = { version = "=0.30.0", default-features = false, features = ["dim3"] }
rapier3d = "=0.25.1"
rapier3d-urdf = "=0.6.0"
k = "=0.32.0"
nalgebra = "=0.33.3"
urdf-rs = "=0.9.1"
serde = { version = "=1.0.229", features = ["derive"] }
thiserror = "=2.0.21"
