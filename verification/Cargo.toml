[package]
name = "ai_write_novel"
version = "0.1.0"
edition = "2021"
publish = false

[dependencies]
serde = { version = "1", features = ["derive"] }
serde_json = "1"
reqwest = { version = "0.12", default-features = false, features = ["json", "stream", "rustls-tls"] }
futures-util = "0.3"
dotenvy = "0.15"
thiserror = "2"
log = "0.4"
chrono = "0.4"
