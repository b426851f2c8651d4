[package]
name = "plastic_core"
version = "0.1.0"
edition = "2021"
publish = false

[dependencies]
rodio = { version = "0.11", default-features = false }
serde = { version = "1", features = ["derive"] }
