[package]
name = "ogimage"
version = "0.1.0"
edition = "2021"
publish = false

[dependencies]
nanoid = "*"
base64 = "*"
resvg = "*"
anyhow = "*"
axum = "*"
dotenvy = "*"
listenfd = "*"
maud = "*"
reqwest = { version = "*", default-features = false, features = ["rustls-tls"] }
serde = { version = "*", features = ["derive"] }
serde_json = "*"
tokio = { version = "*", features = ["full"] }
tower-http = { version = "*", features = ["trace"] }
tracing = "*"
tracing-subscriber = { version = "*", features = ["env-filter"] }
urlencoding = "*"
