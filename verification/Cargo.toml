[package]
name = "usage_widget"
version = "0.1.0"
edition = "2021"
publish = false

[dependencies]
chrono = "0.4"
dirs = "5"
reqwest = { version = "0.12", default-features = false, features = ["json", "rustls-tls"] }
secrecy = "0.10"
security-framework = "2"
serde = { version = "1", features = ["derive"] }
serde_json = "1"
