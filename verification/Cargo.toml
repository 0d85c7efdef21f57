[package]
name = "bevy_3ds"
version = "0.1.0"
edition = "2021"
publish = false

[dependencies]
bevy = { version = "0.10", default-features = false }
bevy_app = "0.10"
bevy_ecs = "0.10"
ouroboros = "0.18"
owning_ref = "0.4"
