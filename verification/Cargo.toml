[package]
name = "krates"
version = "0.1.0"
edition = "2021"
publish = false

[dependencies]
base64 = "=0.23.1"
blake3 = "=1.8.7"
chrono = "=0.4.45"
scrypt = "=0.11.0"
serde = { version = "=1.0.229", features = ["derive"] }
serde_json = "=1.0.151"
toml = "=1.1.7"
rouille = "=3.6.2"
route-recognizer = "=0.3.1"
rusqlite = { version = "=0.40.2", features = ["bundled"] }
