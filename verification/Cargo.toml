[package]
name = "authz"
version = "0.1.0"
edition = "2021"
publish = false

[dependencies]
anyhow = "=1.0.104"
axum = "=0.8.9"
axum-extra = { version = "=0.12.6", features = ["typed-header"] }
chrono = { version = "=0.4.45", features = ["serde"] }
headers = "=0.4.2"
http = "=1.5.0"
serde = { version = "=1.0.229", features = ["derive"] }
sqlx = { version = "=0.9.0", default-features = false, features = ["derive", "runtime-tokio", "postgres", "uuid", "chrono"] }
tokio = { version = "=1.53.2", features = ["rt-multi-thread", "net", "signal", "macros"] }
tower = "=0.5.3"
tower-http = { version = "=0.7.1", features = ["trace", "request-id", "sensitive-headers"] }
tracing = "=0.1.44"
tracing-subscriber = { version = "=0.3.23", features = ["env-filter"] }
uuid = { version = "=1.27.0", features = ["v7", "serde"] }
