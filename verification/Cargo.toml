[package]
name = "airdo"
version = "0.1.0"
edition = "2021"
publish = false

[dependencies]
anyhow = "=1.0.104"
axum = "=0.7.9"
base64 = "=0.22.1"
chrono = "=0.4.45"
percent-encoding = "=2.3.2"
reqwest = { version = "=0.12.28", default-features = false, features = ["json"] }
serde = { version = "=1.0.229", features = ["derive"] }
serde_json = "=1.0.154"
serde_yaml = "=0.9.34"
sqlx = { version = "=0.8.6", default-features = false, features = ["sqlite", "runtime-tokio", "macros", "migrate", "chrono"] }
tokio = { version = "=1.54.1", features = ["full"] }
tokio-cron-scheduler = "=0.15.1"
tower-http = { version = "=0.5.2", features = ["validate-request", "auth", "fs", "catch-panic"] }
tracing = "=0.1.44"
uuid = { version = "=1.29.1", features = ["v4"] }
