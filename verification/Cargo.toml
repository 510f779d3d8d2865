[package]
name = "bluesnap"
version = "0.1.0"
edition = "2021"
publish = false

[dependencies]
error-stack = "0.2.4"
serde = { version = "1", features = ["derive"] }
