[package]
name = "manami"
version = "0.1.0"
edition = "2021"
publish = false

[dependencies]
anyhow = "=1.0.104"
reqwest = { version = "=0.12.28", default-features = false, features = ["rustls-tls"] }
serde = { version = "=1.0.229", features = ["derive"] }
serde_json = "=1.0.154"
serenity = "=0.12.5"
tokio = { version = "=1.54.1", features = ["macros", "rt-multi-thread"] }
worker = { version = "0.6", features = ["d1"] }
