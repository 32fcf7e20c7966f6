[package]
name = "kalshi_trade_rs"
version = "0.3.0"
edition = "2021"
publish = false

[dependencies]
url = "2"
serde = { version = "1", features = ["derive"] }
serde_json = "1"
tokio = { version = "1", features = ["sync", "time", "net", "macros", "rt-multi-thread"] }
tokio-tungstenite = "*"
futures-util = "0.3"
tracing = "0.1"
