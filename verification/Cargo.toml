[package]
name = "order_cycle"
version = "0.1.0"
edition = "2021"
publish = false

[dependencies]
binance-rs-async = "*"
dotenv = "*"
env_logger = "*"
rust_decimal = "*"
tokio = { version = "*", features = ["macros", "rt-multi-thread", "time"] }
tracing = "*"
