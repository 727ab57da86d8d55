[package]
name = "visual_notifications"
version = "0.1.0"
edition = "2021"
publish = false

[dependencies]
kdl = "4"
serde = { version = "1", features = ["derive"] }
serde_json = "1"
