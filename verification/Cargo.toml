[package]
name = "brain_backend"
version = "0.1.0"
edition = "2021"
publish = false

[dependencies]
aes-gcm = "0.10"
argon2 = "0.5"
sha2 = "0.10"
rand = "0.8"
subtle = "2"
zeroize = "1"
hex = "0.4"
uuid = { version = "1", features = ["v7"] }
base64 = "0.22"
serde = { version = "1", features = ["derive"] }
serde_json = "1"
chrono = "0.4"
rusqlite = { version = "0.32", features = ["bundled"] }
sqlite-vec = "0.1"
axum = { version = "0.7", features = ["ws"] }
tokio = { version = "1", features = ["full"] }
tower-http = { version = "0.5", features = ["cors", "trace"] }
tracing = "0.1"
tracing-subscriber = { version = "0.3", features = ["env-filter"] }
reqwest = { version = "0.12", default-features = false, features = ["json", "blocking", "rustls-tls"] }
async-trait = "0.1"
async-stream = "0.3"
futures = "0.3"
anyhow = "1"
thiserror = "1"
regex = "1"
colored = "2"
scopeguard = "1"
