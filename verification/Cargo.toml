[package]
name = "wager_ledger"
version = "0.1.0"
edition = "2021"
publish = false

[dependencies]
serde_json = "*"
serde = { version = "*", features = ["derive"] }
sqlite = "*"
tokio = { version = "*", features = ["macros", "rt-multi-thread"] }
tracing-subscriber = "*"
