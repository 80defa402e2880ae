[package]
name = "popbill-fax"
version = "0.1.0"
edition = "2021"
publish = false

[dependencies]
anyhow = "1"
base64 = "0.22"
chrono = "0.4"
clap = { version = "4", features = ["derive"] }
hmac = "0.12"
reqwest = { version = "0.12", default-features = false, features = ["blocking", "multipart", "json", "rustls-tls", "gzip", "deflate"] }
serde = { version = "1", features = ["derive"] }
serde_json = "1"
sha2 = "0.10"
toml = "0.8"
