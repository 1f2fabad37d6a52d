[package]
name = "pong"
version = "0.1.0"
edition = "2021"
publish = false

[dependencies]
amethyst = { version = "0.15", default-features = false, features = ["audio", "renderer"] }
rand = "=0.7.3"
ron = "=0.5.1"
serde = { version = "=1.0.229", features = ["derive"] }
