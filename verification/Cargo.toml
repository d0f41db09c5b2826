[package]
name = "mechanus_bot"
version = "0.1.0"
edition = "2021"
publish = false

[dependencies]
serenity = "0.10"
serde = { version = "1", features = ["derive"] }
serde_json = "1"
tokio = { version = "1", features = ["macros", "rt-multi-thread"] }
