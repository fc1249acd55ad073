[package]
name = "mailgate"
version = "0.1.0"
edition = "2021"
publish = false

[dependencies]
base64 = "=0.23.1"
mail-parser = "=0.11.9"
urlencoding = "=2.1.3"
serde = { version = "*", features = ["derive"] }
serde_json = "*"
reqwest = { version = "*", default-features = false, features = ["json", "multipart", "rustls-tls"] }
tokio = { version = "*", features = ["full"] }
axum = "*"
futures = "*"
async-trait = "*"
dotenvy = "*"
tower-http = { version = "*", features = ["cors", "fs", "trace", "compression-gzip"] }
tracing = "*"
tracing-subscriber = { version = "*", features = ["env-filter"] }
