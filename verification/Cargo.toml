[package]
name = "velo"
version = "0.1.0"
edition = "2021"
publish = false

[dependencies]
async-channel = "=1.9.0"
base64 = "=0.21.7"
ehttp = "=0.7.2"
image = { version = "=0.24.9", default-features = false, features = ["png"] }
linkify = "=0.11.0"
serde = { version = "=1.0.229", features = ["derive"] }
serde_json = "=1.0.154"
url = "=2.5.8"
uuid = { version = "=1.29.0", features = ["serde", "v4"] }
web-sys = { version = "=0.3.106", features = ["Location", "Window"] }
