[package]
name = "fibonacci"
version = "0.1.0"
edition = "2021"
publish = false

[dependencies]
actix-files = "0.6"
actix-web = "4"
lazy_static = "1"
log = "0.4"
log4rs = "1"
prometheus = "0.13"
serde = { version = "1", features = ["derive"] }
serde_json = "1"
tokio-cron-scheduler = "*"
