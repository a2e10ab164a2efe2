[package]
name = "pake"
version = "0.1.0"
edition = "2021"
publish = false

[dependencies]
url = "*"
home = "*"
serde = { version = "*", features = ["derive"] }
serde_json = "*"
