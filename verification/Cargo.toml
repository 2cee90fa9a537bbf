[package]
name = "etch"
version = "0.1.0"
edition = "2021"
publish = false

[dependencies]
heck = "=0.5.0"
regex = "=1.13.1"
uuid = { version = "=1.29.0", features = ["v4"] }
base64 = "=0.23.1"
pulldown-cmark = { version = "=0.13.6", default-features = false, features = ["html"] }
walkdir = "=2.5.0"
serde = { version = "=1.0.229", features = ["derive"] }
serde_json = "=1.0.154"
syntect = { version = "5", default-features = false, features = ["default-fancy"] }
