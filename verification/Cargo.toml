[package]
name = "todo_service"
version = "0.1.0"
edition = "2021"
publish = false

[dependencies]
axum = "0.6"
chrono = { version = "0.4", default-features = false, features = ["clock"] }
serde = { version = "1", features = ["derive"] }
sqlx = { version = "0.7", default-features = false, features = ["runtime-tokio", "sqlite"] }
tokio = { version = "1", features = ["full"] }
tower = "0.4"
tower-http = { version = "0.4", features = ["cors", "fs"] }
uuid = { version = "1", features = ["v4"] }
