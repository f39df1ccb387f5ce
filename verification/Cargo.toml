[package]
name = "reminder_bot"
version = "0.1.0"
edition = "2021"
publish = false

[dependencies]
anyhow = "=1.0.104"
chrono = "=0.4.45"
cron = "=0.17.0"
dptree = "=0.5.1"
log = "=0.4.34"
log4rs = "=1.4.0"
regex = "=1.13.1"
rusqlite = { version = "=0.40.2", features = ["bundled"] }
takecell = "=0.1.1"
teloxide = { version = "=0.17.0", features = ["macros"] }
tokio = { version = "=1.54.1", features = ["full"] }
tokio-cron-scheduler = "=0.15.1"
