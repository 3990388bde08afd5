[package]
name = "bevy_tokio_tasks"
version = "0.1.0"
edition = "2021"
publish = false

[dependencies]
tokio = { version = "*", default-features = false, features = ["sync", "rt", "rt-multi-thread"] }
bevy_app = "*"
bevy_ecs = "*"
