[package]
name = "chat_tui"
version = "0.1.0"
edition = "2021"
publish = false

[dependencies]
chrono = "0.4"
color-eyre = "0.6"
crossterm = { version = "0.28", features = ["event-stream"] }
futures = "0.3"
jsonwebtoken = "9"
ratatui = "0.29"
reqwest = { version = "0.12", default-features = false, features = ["blocking", "json", "stream"] }
serde = { version = "1", features = ["derive"] }
serde_json = "1"
tokio = { version = "1", features = ["full"] }
tracing = "0.1"
tracing-error = "0.2"
tracing-subscriber = { version = "0.3", features = ["env-filter"] }
unicode-width = "0.2"
