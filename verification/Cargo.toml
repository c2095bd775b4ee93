[package]
name = "volume_model"
version = "0.1.0"
edition = "2021"
publish = false

[dependencies]
uuid = "*"
serde = { version = "*", features = ["derive"] }
