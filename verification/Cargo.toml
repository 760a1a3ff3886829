[package]
name = "radio_server"
version = "0.1.0"
edition = "2021"
publish = false

[dependencies]
anyhow = "=1.0.104"
argon2 = "=0.5.3"
axum = { version = "=0.8.9", features = ["ws", "macros"] }
axum-macros = "=0.5.1"
chrono = { version = "=0.4.45", default-features = false, features = ["serde", "clock"] }
deadpool = "=0.12.3"
diesel = { version = "=2.2.12", default-features = false, features = ["postgres_backend", "chrono"] }
diesel-async = { version = "=0.5.2", features = ["postgres", "deadpool"] }
diesel-derive-enum = { version = "=2.1.0", features = ["postgres"] }
futures = "=0.3.34"
jsonwebtoken = "=9.3.1"
mail-send = "=0.5.2"
rand = "=0.8.8"
redis = { version = "=0.27.6", features = ["tokio-comp"] }
reqwest = { version = "=0.12.28", default-features = false, features = ["json", "rustls-tls"] }
serde = { version = "=1.0.229", features = ["derive"] }
serde_json = "=1.0.154"
symphonia = { version = "=0.5.5", default-features = false, features = ["mp3"] }
thiserror = "=2.0.21"
tokio = { version = "=1.54.1", features = ["rt-multi-thread", "macros", "sync", "time", "fs", "io-util", "net"] }
tokio-stream = { version = "=0.1.19", features = ["sync"] }
tower-cookies = "=0.11.0"
utoipa = { version = "=5.5.0", features = ["axum_extras"] }
utoipa-axum = "=0.2.0"
utoipa-swagger-ui = { version = "=9.0.2", features = ["axum", "vendored"] }
validator = { version = "=0.20.0", features = ["derive"] }
