[package]
name = "collector"
version = "0.1.0"
edition = "2021"
publish = false

[dependencies]
rust_decimal = "1"
reqwest = { version = "0.12", features = ["json"] }
serde = { version = "1", features = ["derive"] }
serde_json = "1"
tokio = { version = "1", features = ["full"] }
futures = "0.3"
log = "0.4"
redis = { version = "0.27", features = ["tokio-comp"] }
amqprs = "2"
async-trait = "0.1"
tracing-subscriber = { version = "0.3", features = ["env-filter"] }
http = "1"
axum = "0.7"
tower-http = { version = "0.5", features = ["trace"] }
sqlx = { version = "0.8", default-features = false, features = ["runtime-tokio", "postgres", "uuid", "rust_decimal", "time", "json", "derive"] }
uuid = { version = "1", features = ["v4"] }
chrono = "0.4"
thiserror = "1"
env_logger = "0.11"

[dev-dependencies]
regex = "1"
