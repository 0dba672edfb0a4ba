[package]
name = "user_service"
version = "0.1.0"
edition = "2021"
publish = false

[dependencies]
uuid = { version = "1", features = ["v4", "serde"] }
validator = "*"
axum = "0.8"
problemdetails = { version = "*", features = ["axum"] }
serde = { version = "1", features = ["derive"] }
serde_json = "1"
sqlx = { version = "0.8", default-features = false, features = ["runtime-tokio", "postgres", "uuid", "derive"] }
tokio = { version = "1", features = ["rt-multi-thread", "macros", "net"] }
tower = "0.5"
tracing = "0.1"
tracing-subscriber = "0.3"
dotenv = "0.15"
