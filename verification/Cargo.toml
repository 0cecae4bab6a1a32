[package]
name = "http_metrics"
version = "0.1.0"
edition = "2021"
publish = false

[dependencies]
url = "2"
reqwest = { version = "0.12", default-features = false, features = ["rustls-tls"] }
trust-dns-resolver = "0.23"
chrono = "0.4"
serde = { version = "1", features = ["derive"] }
