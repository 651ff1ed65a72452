[package]
name = "chat_models"
version = "0.1.0"
edition = "2021"
publish = false

[dependencies]
serde = { version = "1", features = ["derive"] }
indexmap = { version = "*", features = ["serde"] }
iso8601-timestamp = { version = "*" }
