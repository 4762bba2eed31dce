[package]
name = "near_chess"
version = "0.1.0"
edition = "2021"
publish = false

[dependencies]
chess = "3"
near-sdk = "3.1.0"
serde = { version = "1", features = ["derive"] }
