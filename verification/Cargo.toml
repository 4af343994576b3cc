[package]
name = "tts_gateway"
version = "0.1.0"
edition = "2021"
publish = false

[dependencies]
sha2 = "=0.11.0"
fernet = "=0.2.2"
mp3-duration = "=0.1.10"
axum = "=0.8.9"
tokio = { version = "=1.53.2", features = ["full"] }
reqwest = { version = "=0.13.5", default-features = false, features = ["json", "query"] }
serde = { version = "=1.0.229", features = ["derive"] }
serde_json = "=1.0.151"
deadpool-redis = "=0.23.1"
jsonwebtoken = "=11.1.0"
base64 = "=0.22.1"
