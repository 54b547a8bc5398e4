[package]
name = "weather_report"
version = "0.1.0"
edition = "2021"
publish = false

[dependencies]
chrono = "*"
colored = "*"
env_logger = "*"
reqwest = { version = "*", default-features = false }
serde = "*"
serde_json = "*"
tokio = { version = "*", features = ["macros", "rt-multi-thread"] }
