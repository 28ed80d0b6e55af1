[package]
name = "ngrok_monitor"
version = "0.1.0"
edition = "2021"
publish = false

[dependencies]
anyhow = "1"
env_logger = "0.11"
lettre = "0.11"
log = "0.4"
reqwest = { version = "0.12", default-features = false }
rust-ini = "0.21"
serde = "1"
serde_json = "1"
tokio = { version = "1", features = ["macros", "rt-multi-thread", "time"] }
