[package]
name = "shields_up"
version = "0.1.0"
edition = "2021"
publish = false

[dependencies]
rand = "0.8"
serde = { version = "1", features = ["derive"] }
serde_json = "1"
rocket = "0.5"
rocket_ws = "0.1"
