[package]
name = "ferrum_vault"
version = "0.1.0"
edition = "2021"
publish = false

[dependencies]
aes = "0.8"
argon2 = "0.5"
askama = "0.12"
axum = "0.7"
axum-extra = { version = "0.9", features = ["typed-header"] }
chacha20poly1305 = "0.10"
chrono = "0.4"
hex = "0.4"
jsonwebtoken = "9"
pbkdf2 = "0.12"
serde = { version = "1", features = ["derive"] }
serde_json = { version = "1", features = ["raw_value"] }
sha2 = "0.10"
sqlx = { version = "0.7", default-features = false, features = ["sqlite", "runtime-tokio"] }
tokio = { version = "1", features = ["full"] }
toml = "0.8"
tower-http = { version = "0.5", features = ["fs", "trace"] }
tracing = "0.1"
tracing-subscriber = "0.3"
