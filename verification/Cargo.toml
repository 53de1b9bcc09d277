[package]
name = "glitch_guardian"
version = "0.1.0"
edition = "2021"
publish = false

[dependencies]
hmac = "=0.13.0"
sha2 = "=0.11.0"
jsonwebtoken = "=9.3.1"
serde = { version = "=1.0.229", features = ["derive"] }
serde_json = "=1.0.151"
tokio = { version = "=1.53.2", features = ["macros", "rt-multi-thread", "net"] }
axum = "=0.8.9"
octocrab = "=0.41.2"
chrono = "=0.4.45"

[dev-dependencies]
hex = "=0.4.3"
