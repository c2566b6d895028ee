[package]
name = "headless_chrome"
version = "0.1.0"
edition = "2021"
publish = false

[dependencies]
base64 = "*"
serde_json = "*"
websocket = { version = "*", default-features = false, features = ["sync"] }
