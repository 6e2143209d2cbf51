[package]
name = "tagbot"
version = "0.1.0"
edition = "2021"
publish = false

[dependencies]
regex = "1"
rand = "0.8"
serenity = { version = "0.10", features = ["collector", "unstable_discord_api"] }
tokio = { version = "1", features = ["macros", "rt-multi-thread"] }
tokio-postgres = "0.7"
tracing = "0.1"
