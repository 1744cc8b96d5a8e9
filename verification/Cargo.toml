[package]
name = "webhook_relay"
version = "0.1.0"
edition = "2021"
publish = false

[dependencies]
base64 = "0.22"
hmac = "0.12"
sha2 = "0.10"
url = "2"
reqwest = { version = "0.11", default-features = false }
hyper = { version = "0.14", features = ["server", "http1", "runtime"] }
ngrok = "0.13"
tokio = { version = "1", features = ["full"] }
futures = "0.3"
serde = { version = "1", features = ["derive"] }
serde_json = "1"
