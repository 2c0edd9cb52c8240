[package]
name = "boatctl"
version = "0.1.0"
edition = "2021"
publish = false

[dependencies]
anyhow = "*"
rppal = "*"
rust-pigpio = "*"
serde = { version = "*", features = ["derive"] }
serde_json = "*"
tungstenite = "*"
