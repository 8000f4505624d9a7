[package]
name = "sary"
version = "0.1.0"
edition = "2021"
publish = false

[dependencies]
serenity = { version = "0.10", features = ["collector", "unstable_discord_api"] }
tokio = { version = "1", features = ["full"] }
sqlx = { version = "0.5", features = ["runtime-tokio-rustls", "postgres", "chrono"] }
chrono = "0.4"
serde = { version = "1", features = ["derive"] }
serde_yaml = "0.8"
reqwest = "0.11"
redis = "0.21"
sys-info = "0.9"
tracing = "0.1"
tracing-log = "0.1"
tracing-subscriber = "0.2"
