[package]
name = "aletheia_server"
version = "0.1.0"
edition = "2021"
publish = false

[dependencies]
serde = { version = "1", features = ["derive"] }
serde_json = "1"
toml = "*"
actix-web = { version = "4", default-features = false, features = ["macros"] }
async-trait = "0.1"
anyhow = "1"
mongodb = "3"
tracing = "0.1"
tracing-appender = "0.2"
tracing-subscriber = { version = "0.3", features = ["env-filter", "fmt"] }
