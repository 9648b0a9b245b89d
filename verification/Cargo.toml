[package]
name = "credential_forms"
version = "0.1.0"
edition = "2021"
publish = false

[dependencies]
validator = { version = "*", features = ["derive"] }
