[package]
name = "crud_api"
version = "0.1.0"
edition = "2021"
publish = false

[dependencies]
autometrics = { version = "0.6", features = ["prometheus-exporter"] }
axum = "0.6"
axum-macros = "0.3"
futures = "0.3"
mongodb = "2"
serde = { version = "1", features = ["derive"] }
serde_json = "1"
sqlx = { version = "0.7", default-features = false, features = ["runtime-tokio-rustls", "postgres", "uuid", "macros"] }
strum_macros = "0.25"
tokio = { version = "1", features = ["full"] }
tower-http = { version = "0.4", features = ["cors", "trace"] }
tracing = "0.1"
tracing-subscriber = "0.3"
