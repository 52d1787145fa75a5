[package]
name = "scenedeck"
version = "0.1.0"
edition = "2021"
publish = false

[dependencies]
serde = { version = "=1.0.229", features = ["derive"] }
serde_json = "=1.0.154"
serde_yaml = "=0.9.34"
thiserror = "=2.0.21"
keyring = { version = "=3.6.3", features = ["async-secret-service", "tokio", "crypto-rust"] }
obws = { version = "=0.14.0", features = ["events"] }
tokio = { version = "=1.54.1", features = ["rt-multi-thread", "macros", "time", "sync"] }
futures-util = "=0.3.34"
tracing = "=0.1.44"
tracing-subscriber = { version = "=0.3.23", features = ["env-filter"] }
