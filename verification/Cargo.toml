[package]
name = "kalshi_monitor"
version = "0.1.0"
edition = "2021"
publish = false

[dependencies]
chrono = "=0.4.45"
rsa = { version = "=0.9.10", features = ["sha2"] }
rand = "=0.8.8"
base64 = "=0.22.1"
pkcs1 = { version = "=0.7.5", features = ["pem"] }
serde = { version = "1", features = ["derive"] }
serde_json = "1"
tokio = { version = "1", features = ["rt-multi-thread", "macros", "sync", "time"] }
tokio-tungstenite = "*"
futures-util = "0.3"
reqwest = { version = "0.11", default-features = false, features = ["json"] }
anyhow = "1"
csv = "1"
dotenvy = "0.15"
tracing = "0.1"
tracing-subscriber = { version = "0.3", features = ["env-filter"] }
redis = { version = "*", features = ["tokio-comp"] }
