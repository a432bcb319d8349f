[package]
name = "breeze"
version = "0.1.0"
edition = "2021"
publish = false

[dependencies]
base64 = "0.22"
chrono = "0.4"
objc2 = "0.6"
objc2-app-kit = "0.3"
serde = { version = "1", features = ["derive"] }
url = "2"
