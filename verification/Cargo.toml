[package]
name = "voice_summary"
version = "0.1.0"
edition = "2021"
publish = false

[dependencies]
anyhow = "*"
async-openai = { version = "=0.42.1", default-features = false, features = ["audio", "chat-completion", "native-tls"] }
dotenvy = "*"
takecell = "=0.1.1"
teloxide = "=0.17.0"
tokio = { version = "*", features = ["macros", "rt-multi-thread"] }
tracing = "*"
tracing-subscriber = "*"
