[package]
name = "task_sync"
version = "0.1.0"
edition = "2021"
publish = false

[dependencies]
jsonwebtoken = "9"
bcrypt = "*"
serde_json = "1"
serde = { version = "1", features = ["derive"] }
axum = { version = "0.6", features = ["ws"] }
tokio = { version = "1", features = ["full"] }
sqlx = { version = "0.7", default-features = false, features = ["runtime-tokio-rustls", "postgres", "chrono"] }
tower-http = { version = "0.4", features = ["cors"] }
futures = "0.3"
chrono = { version = "0.4", features = ["serde"] }
dotenv = "0.15"
