[package]
name = "user_dtos"
version = "0.1.0"
edition = "2021"
publish = false

[dependencies]
validator = "*"
chrono = { version = "*", features = ["serde"] }
serde = { version = "*", features = ["derive"] }
