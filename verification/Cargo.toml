[package]
name = "cogere"
version = "0.1.0"
edition = "2021"
publish = false

[dependencies]
askama = "*"
axum = { version = "*", features = ["multipart", "macros"] }
axum-login = "*"
axum-messages = "*"
base64 = "=0.22.1"
bytes = "*"
password-auth = "=1.0.0"
serde = { version = "*", features = ["derive"] }
serde_json = "*"
sqlx = { version = "=0.8.6", default-features = false, features = ["sqlite", "runtime-tokio", "migrate", "uuid"] }
thiserror = "*"
time = "*"
tokio = { version = "*", features = ["full"] }
tower = { version = "*", features = ["timeout", "util"] }
tower-http = { version = "*", features = ["trace"] }
tower-sessions = { version = "=0.14.0", features = ["signed"] }
tower-sessions-sqlx-store = { version = "*", features = ["sqlite"] }
tracing = "*"
tracing-subscriber = { version = "*", features = ["env-filter"] }
trait-variant = "*"
uuid = { version = "=1.29.0", features = ["v7", "serde"] }
