[package]
name = "deepseek_client"
version = "0.1.0"
edition = "2021"
publish = false

[dependencies]
serde_json = "=1.0.151"
serde = { version = "=1.0.229", features = ["derive"] }
reqwest = { version = "=0.12.28", default-features = false, features = ["json", "rustls-tls"] }
tokio = { version = "=1.53.2", features = ["macros", "rt-multi-thread"] }
dotenvy = "=0.15.7"
schemars = "=1.2.2"
rmcp = { version = "=3.5.1", features = ["transport-io"] }
