[package]
name = "stretch_backend"
version = "0.1.0"
edition = "2021"
publish = false

[dependencies]
futures-util = "0.3"
reqwest = { version = "0.12", features = ["stream"] }
