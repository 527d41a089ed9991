[package]
name = "trading_engine"
version = "0.1.0"
edition = "2021"
publish = false

[dependencies]
barter-data = "=0.5.11"
barter-execution = "0.2"
barter-integration = "=0.4.1"
tokio = { version = "=1.54.1", features = ["sync"] }

[dev-dependencies]
chrono = "=0.4.45"
