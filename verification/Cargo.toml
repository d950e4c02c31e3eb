[package]
name = "orbitx_storage"
version = "0.1.0"
edition = "2021"
publish = false

[dependencies]
anyhow = "=1.0.104"
argon2 = "=0.5.3"
base64 = "=0.22.1"
chacha20poly1305 = "=0.10.1"
flate2 = "=1.1.10"
hostname = "=0.4.2"
md5 = "=0.7.0"
rand = "=0.8.8"
regex = "=1.13.1"
rmp-serde = "=1.3.1"
serde = { version = "=1.0.229", features = ["derive"] }
serde_json = "=1.0.154"
sha2 = "=0.10.9"
tokio = { version = "=1.54.1", features = ["fs", "sync", "rt", "time", "macros"] }
chrono = "=0.4.45"
tracing = "=0.1.44"
uuid = { version = "=1.29.0", features = ["v4"] }
sqlx = { version = "0.8", default-features = false, features = ["sqlite", "runtime-tokio"] }
