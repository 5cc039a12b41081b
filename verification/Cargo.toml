[package]
name = "joyride"
version = "0.1.0"
edition = "2021"
publish = false

[dependencies]
godot = { version = "=0.5.5", features = ["api-4-4", "experimental-godot-api"] }
serde = { version = "=1.0.229", features = ["derive"] }
serde_json = "=1.0.154"
