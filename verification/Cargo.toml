[package]
name = "gym-core"
version = "0.1.4"
edition = "2021"
publish = false

[dependencies]
rand = "=0.10.3"
serde = { version = "=1.0.229", features = ["derive"] }
serde_json = "=1.0.154"
toml = "=1.2.1"
clap = { version = "=4.6.7", features = ["derive"] }
wickra-backtest = "=0.2.1"
wickra-core = "=2.1.1"
wickra-data = "=2.1.1"
