[package]
name = "vagabond"
version = "0.1.0"
edition = "2021"
publish = false

[dependencies]
bevy = { version = "0.17", default-features = false, features = ["bevy_sprite", "bevy_text", "bevy_picking", "bevy_state", "bevy_color"] }
