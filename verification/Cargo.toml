[package]
name = "soundcloud"
version = "0.1.0"
edition = "2021"
publish = false

[dependencies]
url = "*"
hyper = { version = "*", default-features = false }
serde = { version = "*", features = ["derive"] }
serde_json = "*"
