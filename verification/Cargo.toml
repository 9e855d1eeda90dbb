[package]
name = "starboard"
version = "0.1.0"
edition = "2021"
publish = false

[dependencies]
emojis = "0.6"
serenity = "0.11"
tokio = { version = "1", features = ["macros", "rt-multi-thread"] }
tokio-postgres = "0.7"
