[package]
name = "nn"
version = "0.1.0"
edition = "2021"

[dependencies]
anyhow = "1"
nalgebra = "0.33"
rand = "0.9"
serde = { version = "1", features = ["derive"] }
serde_json = "1"
