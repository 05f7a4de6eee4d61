[package]
name = "arkiv"
version = "0.1.0"
edition = "2021"
publish = false

[dependencies]
anyhow = "1"
async-trait = "0.1"
axum = "0.5"
bytes = "1"
chrono = "0.4"
dotenv = "0.15"
futures = "0.3"
html-escape = "0.2"
http = "0.2"
mime_guess = "2"
regex = "1"
reqwest = { version = "0.11", default-features = false, features = ["json", "rustls-tls"] }
scraper = "*"
serde = { version = "1", features = ["derive"] }
serde_yaml = "0.9"
sqlx = { version = "0.6", default-features = false, features = ["runtime-tokio-rustls", "sqlite"] }
tera = { version = "1", default-features = false }
tokio = { version = "1", features = ["full"] }
tower-http = { version = "0.3", features = ["fs", "trace"] }
tracing = "0.1"
tracing-subscriber = "0.3"
