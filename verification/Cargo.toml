[package]
name = "notes_service"
version = "0.1.0"
edition = "2021"
publish = false

[dependencies]
actix-web = { version = "4", default-features = false, features = ["macros"] }
actix-service = "2"
actix-http = "3"
actix-rt = "2"
tokio-postgres = { version = "0.7", features = ["with-chrono-0_4"] }
tokio = { version = "1", features = ["rt"] }
refinery = { version = "0.8", features = ["tokio-postgres"] }
chrono = { version = "0.4", features = ["serde"] }
serde = { version = "1", features = ["derive"] }
serde_json = "1"
env_logger = "0.11"
futures = "0.3"
