[package]
name = "berth"
version = "0.1.0"
edition = "2021"
publish = false

[dependencies]
anyhow = "=1.0.104"
argon2 = "=0.5.3"
axum = "=0.8.9"
base64 = "=0.22.1"
chacha20poly1305 = "=0.10.1"
jiff = { version = "=0.2.39", default-features = false, features = ["std"] }
papaya = "=0.2.5"
rand = "=0.9.5"
serde = { version = "=1.0.229", features = ["derive"] }
serde_json = "=1.0.154"
sha2 = "=0.10.9"
tokio = { version = "=1.54.1", features = ["full"] }
toml = "=0.8.23"
uuid = "1"
zeroize = "=1.9.1"
zip = { version = "=2.6.1", default-features = false, features = ["deflate"] }
