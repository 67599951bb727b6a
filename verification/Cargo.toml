[package]
name = "axum_mysql_api"
version = "0.1.0"
edition = "2021"
publish = false

[dependencies]
anyhow = "1"
axum = "*"
dotenvy = "*"
sea-orm = { version = "*", default-features = false, features = ["sqlx-mysql", "runtime-tokio-rustls"] }
serde = { version = "1", features = ["derive"] }
tokio = { version = "1", features = ["full"] }
tower-http = { version = "*", features = ["trace", "cors"] }
tracing = "0.1"
tracing-subscriber = "0.3"
