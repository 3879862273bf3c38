[package]
name = "cch"
version = "0.1.0"
edition = "2021"
publish = false

[dependencies]
regex = "1"
serde = { version = "1", features = ["derive"] }
serde_json = "1"
serde_yaml = "0.9"
chrono = { version = "0.4", features = ["serde"] }
dirs = "5"
anyhow = "1"
tokio = { version = "1", features = ["process", "time", "rt", "macros", "io-util", "fs"] }
