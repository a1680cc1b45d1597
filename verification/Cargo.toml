[package]
name = "scheduler"
version = "0.1.0"
edition = "2021"
publish = false

[dependencies]
chrono = { version = "0.4", features = ["serde"] }
serde = { version = "1", features = ["derive"] }
serde_json = "1"
uuid = { version = "1", features = ["v4", "serde"] }
tokio = { version = "1", features = ["full"] }
axum = "0.6"
tower = "0.4"
sqlx = { version = "0.6", features = ["runtime-tokio-rustls", "postgres", "chrono", "uuid", "json"] }
reqwest = { version = "0.11", default-features = false }
aws-config = "*"
aws-sdk-sns = "*"
tracing = "0.1"
tracing-subscriber = "0.3"
dotenv = "0.15"
config = "0.13"
