[package]
name = "speedtest"
version = "0.1.0"
edition = "2021"
publish = false

[dependencies]
chrono = { version = "*", features = ["serde"] }
clap = { version = "*", features = ["derive"] }
clickhouse = "*"
csv = "*"
indicatif = "*"
reqwest = { version = "*", default-features = false }
serde = { version = "*", features = ["derive"] }
serde_json = "*"
serde_yaml = "*"
tokio = { version = "*", features = ["macros", "rt-multi-thread", "time"] }
