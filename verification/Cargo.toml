[package]
name = "jobs"
version = "0.1.0"
edition = "2021"
publish = false

[dependencies]
async-trait = "0.1"
base64 = "0.21"
chrono = "0.4"
cron = "0.12"
futures = "0.3"
log = "0.4"
mongodb = "2"
pickledb = "0.5"
rand = "0.8"
serde = { version = "1", features = ["derive"] }
thiserror = "1"
tokio = { version = "1", features = ["macros", "rt-multi-thread", "sync", "time"] }
