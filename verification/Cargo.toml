[package]
name = "bevy_schedule_dispatch"
version = "0.1.0"
edition = "2021"
publish = false

[dependencies]
bevy_app = "0.11"
bevy_ecs = "0.11"
paste = "1"
