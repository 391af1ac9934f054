[package]
name = "lettermint"
version = "0.2.0"
edition = "2021"
publish = false

[dependencies]
bytes = "=1.12.1"
hex = "=0.4.3"
hmac = "=0.12.1"
http = "=1.5.0"
reqwest = { version = "=0.12.28", default-features = false, features = ["rustls-tls"] }
serde = { version = "=1.0.229", features = ["derive"] }
serde_json = "=1.0.154"
sha2 = "=0.10.9"
thiserror = "=2.0.21"
