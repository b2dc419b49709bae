[package]
name = "telegram_cjk_search_bot"
version = "0.1.0"
edition = "2021"
publish = false

[dependencies]
chrono = { version = "=0.4.45", features = ["serde"] }
html-escape = "=0.2.15"
teloxide = { version = "=0.12.2", features = ["macros"] }
tokio = { version = "=1.54.1", features = ["rt-multi-thread", "macros", "sync", "time"] }
clap = { version = "=4.6.7", features = ["derive"] }
serde = { version = "=1.0.229", features = ["derive"] }
serde_json = "=1.0.154"
futures = "=0.3.34"
log = "=0.4.34"
pretty_env_logger = "=0.5.0"
meilisearch-sdk = "=0.24.3"
takecell = "=0.1.1"
