[package]
name = "smtp_relay"
version = "0.1.0"
edition = "2021"
publish = false

[dependencies]
base64 = "*"
hmac-sha256 = "*"
chrono = "*"
uuid = { version = "*", features = ["v4"] }
url = "*"
mailparse = "*"
anyhow = "*"
log = "*"
pretty_env_logger = "*"
clap = { version = "*", features = ["derive"] }
reqwest = { version = "*", default-features = false, features = ["blocking"] }

[dev-dependencies]
serde_json = "*"
