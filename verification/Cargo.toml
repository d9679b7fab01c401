[package]
name = "renet_diagnostics"
version = "0.1.0"
edition = "2021"
publish = false

[dependencies]
bevy = { version = "=0.9.1", default-features = false }
bevy_renet = "=0.0.6"
