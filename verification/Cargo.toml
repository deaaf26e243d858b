[package]
name = "gramophone"
version = "0.1.0"
edition = "2021"
publish = false

[dependencies]
clap = "*"
ron = "*"
serde = { version = "1", features = ["derive"] }
serde_json = "1"
time = "*"
