[package]
name = "imagechain"
version = "0.1.0"
edition = "2021"
publish = false

[dependencies]
sha3 = "0.10"
image = "0.24"
serde_json = "1"
chrono = "0.4"
serde = { version = "1", features = ["derive"] }
axum = { version = "0.7", features = ["multipart"] }
tokio = { version = "1", features = ["full"] }
tower-http = { version = "0.5", features = ["cors", "trace", "limit", "compression-full", "propagate-header", "request-id"] }
uuid = { version = "1", features = ["v4"] }
thiserror = "1"
reqwest = { version = "0.12", default-features = false, features = ["json", "multipart", "rustls-tls"] }
dotenv = "0.15"
env_logger = "0.11"
log = "0.4"
tracing-subscriber = { version = "0.3", features = ["env-filter"] }
tempfile = "3"
