[package]
name = "bevy_context_steering"
version = "0.1.0"
edition = "2021"
publish = false

[dependencies]
bevy = { version = "=0.19.1", default-features = false, features = ["std", "bevy_log"] }
avian3d = { version = "=0.7.0", default-features = false, features = ["3d", "f32", "parry-f32"] }
bevy_many_relationships = "=0.3.0"
