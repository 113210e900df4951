[package]
name = "documind"
version = "0.1.0"
edition = "2021"
publish = false

[dependencies]
anyhow = "=1.0.104"
axum = { version = "=0.8.9", features = ["multipart"] }
base64 = "0.21"
config = { version = "=0.15.27", default-features = false, features = ["yaml"] }
dotenv = "0.15"
futures = "=0.3.34"
pdf-extract = "=0.12.1"
qdrant-client = "=1.20.0"
regex = "1"
reqwest = { version = "=0.12.28", features = ["json", "multipart"] }
serde = { version = "=1.0.229", features = ["derive"] }
serde_json = "=1.0.154"
tokio = { version = "=1.54.1", features = ["full"] }
tonic = "=0.14.6"
tracing = "=0.1.44"
tracing-subscriber = "=0.3.23"
uuid = { version = "=1.29.0", features = ["v4"] }
