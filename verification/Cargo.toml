[package]
name = "cloudflare_dyndns"
version = "2.0.0"
edition = "2021"
publish = false

[dependencies]
anyhow = "1"
colored = "2"
dotenvy = "0.15"
reqwest = { version = "0.12", default-features = false, features = ["json", "rustls-tls"] }
serde = { version = "1", features = ["derive"] }
serde_json = "1"
thiserror = "2"
tokio = { version = "1", features = ["macros", "rt-multi-thread", "time"] }
