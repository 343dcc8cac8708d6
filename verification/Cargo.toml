[package]
name = "quizzical"
version = "0.4.1"
edition = "2021"
publish = false

[dependencies]
crossterm = "0.27"
rand = "0.8"
serde = { version = "1", features = ["derive"] }
serde_json = "1"
