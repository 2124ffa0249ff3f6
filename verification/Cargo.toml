[package]
name = "ecosystem_components"
version = "0.1.0"
edition = "2021"
publish = false

[dependencies]
bevy_ecs = "*"
bevy_math = "*"
serde = { version = "*", features = ["derive"] }
