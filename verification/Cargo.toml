[package]
name = "bevy_abilities"
version = "0.1.0"
edition = "2021"
publish = false

[dependencies]
bevy = { version = "0.16", default-features = false, features = ["std"] }
bevy_behave = "0.3"
smallvec = "1"
