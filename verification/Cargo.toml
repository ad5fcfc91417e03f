[package]
name = "mushroom_password_manager"
version = "0.1.0"
edition = "2021"
publish = false

[dependencies]
iced = { version = "0.9", default-features = false, features = ["glow", "tokio"] }
reqwest = { version = "0.11", default-features = false, features = ["json"] }
serde = { version = "1", features = ["derive"] }
serde_json = "1"
