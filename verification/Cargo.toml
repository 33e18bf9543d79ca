[package]
name = "chaos_particles"
version = "0.1.0"
edition = "2021"
publish = false

[dependencies]
bevy = { version = "0.14.2", default-features = false }
rand = "0.8"
