[package]
name = "desktop_pet"
version = "0.1.0"
edition = "2021"
publish = false

[dependencies]
rand = "0.8"
log = "0.4"
env_logger = { version = "0.11", default-features = false }
bevy = { version = "0.13", default-features = false }
image = { version = "0.24", default-features = false, features = ["png"] }
