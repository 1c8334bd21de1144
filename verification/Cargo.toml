[package]
name = "stock_scan"
version = "0.1.0"
edition = "2021"
publish = false

[dependencies]
anyhow = "=1.0.104"
charming = "=0.6.0"
chrono = { version = "=0.4.45", features = ["serde"] }
chrono-tz = "=0.10.4"
dotenvy = "=0.15.7"
fred = "=10.1.0"
futures = "=0.3.34"
poise = "=0.7.1"
reqwest = { version = "=0.12.28", features = ["json"] }
serde = { version = "=1.0.229", features = ["derive"] }
serenity = "=0.12.5"
ta = "=0.5.0"
tokio = { version = "=1.54.1", features = ["full"] }
tokio-cron-scheduler = { version = "=0.15.1", features = ["signal"] }
tracing = "=0.1.44"
tracing-subscriber = { version = "=0.3.23", features = ["env-filter"] }
