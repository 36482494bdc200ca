[package]
name = "assistant_chat"
version = "0.1.0"
edition = "2021"
publish = false

[dependencies]
async-openai = { version = "=0.42.1", features = ["chat-completion"] }
chrono = "=0.4.45"
dotenvy = "=0.15.7"
iced = { version = "=0.13.1", features = ["markdown", "tokio"], default-features = false }
open = "=5.4.4"
thiserror = "=1.0.69"
