[package]
name = "space"
version = "0.1.0"
edition = "2021"
publish = false

[dependencies]
fixed = "*"
az = "*"
cgmath = "*"
encase = { version = "*", features = ["cgmath"] }
serde = { version = "*", features = ["derive"] }
serde_json = "*"
