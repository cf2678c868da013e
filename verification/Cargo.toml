[package]
name = "yatd"
version = "0.1.0"
edition = "2021"
publish = false

[dependencies]
rand = "0.8"
bevy = { version = "0.7", default-features = false, features = ["render"] }
bevy_mod_picking = "0.7"
bevy_tweening = "0.4"
leafwing-input-manager = "0.3"
smooth-bevy-cameras = "0.4"
