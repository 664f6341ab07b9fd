[package]
name = "abby_bot"
version = "0.1.0"
edition = "2021"
publish = false

[dependencies]
poise = "0.6"
serenity = "0.12"
sqlx = { version = "0.8", default-features = false, features = ["runtime-tokio", "sqlite", "macros", "migrate"] }
tokio = { version = "1", features = ["macros", "rt-multi-thread", "signal"] }
regex = "1"
time = { version = "0.3", features = ["formatting"] }
tracing = "0.1"
tracing-subscriber = "0.3"
tracing-appender = "0.2"
tracing-error = "0.2"
color-eyre = "0.6"
thiserror = "1"
serde = { version = "1", features = ["derive"] }
toml = "0.8"
gumdrop = "0.8"
sd-notify = "0.4"
