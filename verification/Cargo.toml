[package]
name = "capture_preview"
version = "0.1.0"
edition = "2021"
publish = false

[dependencies]
image = { version = "0.25", default-features = false }
serde = { version = "1", features = ["derive"] }
