[package]
name = "sloggers"
version = "0.1.0"
edition = "2021"
publish = false

[dependencies]
slog = "2"
slog-async = "2"
slog-term = "2"
serde = { version = "1", features = ["derive"] }
