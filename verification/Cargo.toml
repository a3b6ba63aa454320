[package]
name = "balance_withdrawal"
version = "0.1.0"
edition = "2021"
publish = false

[dependencies]
base64 = "=0.21.7"
hmac-sha256 = "=1.1.15"
humantime = "=2.4.0"
serde_json = { version = "=1.0.154", features = ["float_roundtrip"] }
serde = { version = "=1.0.229", features = ["derive"] }
reqwest = { version = "=0.11.27", default-features = false, features = ["json", "rustls-tls"] }
tokio = { version = "=1.54.1", features = ["macros", "rt-multi-thread", "time", "signal"] }
async-trait = "=0.1.92"
anyhow = "=1.0.104"
toml = "=0.7.8"
humantime-serde = "=1.1.1"
log = "=0.4.34"
env_logger = "=0.10.2"
thiserror = "=1.0.69"
