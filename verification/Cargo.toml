[package]
name = "one_word"
version = "0.1.0"
edition = "2021"
publish = false

[dependencies]
chrono = "0.4"
dotenv = "0.15"
serenity = "0.11"
sqlite = "0.30"
tokio = { version = "1", features = ["macros", "rt-multi-thread"] }
