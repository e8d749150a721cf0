[package]
name = "user_service"
version = "0.1.0"
edition = "2021"
publish = false

[dependencies]
axum = "=0.8.9"
chrono = "=0.4.45"
serde = { version = "=1.0.229", features = ["derive"] }
sqlx = { version = "=0.9.0", default-features = false, features = ["runtime-tokio", "postgres", "uuid", "chrono"] }
tokio = { version = "=1.53.2", features = ["rt-multi-thread", "macros", "net"] }
tracing-subscriber = "=0.3.23"
uuid = { version = "=1.27.0", features = ["v4"] }
