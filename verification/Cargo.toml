[package]
name = "subscription_billing"
version = "0.1.0"
edition = "2021"
publish = false

[dependencies]
chrono = { version = "0.4", features = ["serde"] }
hex = "0.4"
hmac = "0.12"
sha2 = "0.10"
rust_decimal = "1"
serde_urlencoded = "0.7"
serde_json = "1"
uuid = { version = "1", features = ["v4", "serde"] }
serde = { version = "1", features = ["derive"] }
actix-web = "4"
actix-cors = "0.7"
actix-rt = "2"
anyhow = "1"
dotenv = "0.15"
env_logger = "0.10"
log = "0.4"
reqwest = { version = "0.11", default-features = false, features = ["json", "rustls-tls"] }
tokio = { version = "1", features = ["sync", "time", "rt", "macros"] }
validator = { version = "0.16", features = ["derive"] }
