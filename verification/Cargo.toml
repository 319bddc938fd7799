[package]
name = "deadlocked"
version = "0.1.0"
edition = "2021"
publish = false

[dependencies]
bytemuck = "1"
nix = "*"
log = "0.4"
env_logger = "*"
glam = "*"
serde = { version = "1", features = ["derive"] }
strum = { version = "*", features = ["derive"] }
