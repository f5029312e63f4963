[package]
name = "ppb_server"
version = "0.1.0"
edition = "2021"
publish = false

[dependencies]
sha2 = "0.10"
hmac = "0.12"
base64 = "0.22"
percent-encoding = "2"
cookie = "0.18"
rand = "0.8"
uuid = { version = "1", features = ["v4"] }
chrono = "0.4"
dashmap = "6"
bcrypt = "0.15"
reqwest = { version = "0.12", default-features = false }
serde = { version = "1", features = ["derive"] }
serde_json = "1"
serde_yaml = "0.9"
toml = "0.8"
jsonwebtoken = "9"
anyhow = "1"
axum = "0.8"
tokio = { version = "1", features = ["rt-multi-thread", "macros", "net", "signal"] }
