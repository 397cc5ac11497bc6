[package]
name = "nytg"
version = "0.1.0"
edition = "2021"
publish = false

[dependencies]
chrono = { version = "=0.4.45", features = ["serde"] }
rand = "=0.8.8"
serde_json = "=1.0.154"
serde = { version = "=1.0.229", features = ["derive"] }
ratatui = "=0.29.0"
reqwest = { version = "=0.12.28", features = ["blocking", "json"] }
