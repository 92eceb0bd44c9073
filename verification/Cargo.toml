[package]
name = "flappy_crab"
version = "0.1.0"
edition = "2021"
publish = false

[dependencies]
ggez = "0.5"
noise = "0.6"
rand = "0.7"
serde = { version = "1", features = ["derive"] }
serde_json = "1"
