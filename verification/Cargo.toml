[package]
name = "chatbot"
version = "0.1.0"
edition = "2021"
publish = false

[dependencies]
dotenv = "0.15"
openai-api-rs = "*"
serenity = "*"
tokio = { version = "1", features = ["macros", "rt-multi-thread"] }
