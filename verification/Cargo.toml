[package]
name = "google_login"
version = "0.1.0"
edition = "2021"
publish = false

[dependencies]
oauth2 = { version = "=4.4.2", default-features = false }
serde_json = "=1.0.154"
serde = { version = "=1.0.229", features = ["derive"] }
axum = "=0.6.20"
reqwest = { version = "=0.11.27", default-features = false, features = ["json", "rustls-tls"] }
