[package]
name = "proyects_api"
version = "0.1.0"
edition = "2021"
publish = false

[dependencies]
axum = "=0.8.9"
chrono = { version = "=0.4.45", features = ["serde"] }
dotenvy = "=0.15.7"
serde = { version = "1", features = ["derive"] }
sqlx = { version = "=0.8.6", features = ["runtime-tokio", "sqlite", "chrono", "uuid"] }
thiserror = "2"
tokio = { version = "1", features = ["full"] }
tower-http = { version = "=0.6.11", features = ["cors", "trace"] }
tracing = "0.1"
tracing-subscriber = { version = "0.3", features = ["env-filter"] }
utoipa = { version = "=5.5.0", features = ["axum_extras", "chrono", "uuid"] }
utoipa-swagger-ui = { version = "=10.0.1", features = ["axum"] }
uuid = { version = "=1.27.0", features = ["v4", "serde"] }
validator = "=0.21.0"
