[package]
name = "particle_life"
version = "0.1.0"
edition = "2021"
publish = false

[dependencies]
bevy = { version = "0.15", default-features = false, features = ["bevy_render", "bevy_core_pipeline", "bevy_sprite", "bevy_winit", "bevy_window", "x11"] }
