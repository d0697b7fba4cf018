[package]
name = "server"
version = "0.1.0"
edition = "2021"
publish = false

[dependencies]
anyhow = "1"
argon2 = "0.5"
axum = "0.8"
chrono = "0.4"
config = { version = "0.14", default-features = false, features = ["yaml", "toml"] }
dotenvy = "0.15"
futures-util = "0.3"
hex = "0.4"
image = { version = "0.25", default-features = false, features = ["jpeg", "png"] }
jsonwebtoken = "9"
lettre = "0.11"
minijinja = { version = "2", features = ["loader"] }
rand = "0.9"
redis = { version = "0.27", features = ["tokio-comp"] }
regex = "1"
reqwest = { version = "0.12", features = ["json", "cookies"] }
serde = { version = "1", features = ["derive"] }
serde_json = { version = "1", features = ["raw_value"] }
serde_with = "3"
sqlx = { version = "0.8", features = ["runtime-tokio", "postgres", "chrono", "json"] }
thiserror = "2"
tokio = { version = "1", features = ["full"] }
tokio-cron-scheduler = "0.13"
tracing = "0.1"
tracing-appender = "0.2"
tracing-subscriber = { version = "0.3", features = ["env-filter"] }
url = "2"
