[package]
name = "unai"
version = "0.1.0"
edition = "2021"
publish = false

[dependencies]
base64 = "=0.23.1"
uuid = { version = "=1.27.0", features = ["v4"] }
image = { version = "=0.25.10", default-features = false, features = ["png", "jpeg"] }
serde_json = "=1.0.151"
serde = { version = "*", features = ["derive"] }
axum = "*"
tokio = { version = "*", features = ["full"] }
reqwest = { version = "*", default-features = false, features = ["json", "rustls-tls"] }
futures = "*"
log = "*"
env_logger = "*"
chrono = "*"
google-cloud-storage = "*"
google-cloud-auth = "*"
bytes = "*"
