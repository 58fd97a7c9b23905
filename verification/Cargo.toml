[package]
name = "gitrust"
version = "0.1.0"
edition = "2021"
publish = false

[dependencies]
ammonia = "=4.2.4"
comrak = { version = "=0.59.0", default-features = false, features = ["syntect-fancy"] }
argon2 = "=0.5.3"
rand = "=0.8.8"
uuid = { version = "=1.29.0", features = ["v4", "serde"] }
captcha-rs = "=0.5.0"
chrono = { version = "=0.4.45", features = ["serde"] }
lettre = { version = "=0.11.23", default-features = false, features = ["builder", "smtp-transport", "tokio1"] }
git2 = { version = "=0.19.0", default-features = false }
axum = "=0.8.9"
tokio = { version = "=1.54.1", features = ["macros", "rt-multi-thread", "net", "sync"] }
sqlx = { version = "=0.8.6", default-features = false, features = ["runtime-tokio", "postgres", "uuid", "chrono", "json"] }
tower-sessions = "=0.14.0"
minijinja = { version = "=2.24.0", features = ["loader"] }
serde = { version = "=1.0.229", features = ["derive"] }
serde_json = "=1.0.154"
tracing = "=0.1.44"
anyhow = "=1.0.104"
