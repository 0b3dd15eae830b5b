[package]
name = "voice_assistant"
version = "0.1.0"
edition = "2021"
publish = false

[dependencies]
anyhow = "1"
chrono = "0.4"
crossterm = "0.28"
notify = "6"
ollama-rs = "0.2"
ratatui = "0.29"
reqwest = "0.12"
rss = "2"
serde = { version = "1", features = ["derive"] }
serde_json = "1"
tokio = { version = "1", features = ["full"] }
urlencoding = "2"
vosk = "0.3"
