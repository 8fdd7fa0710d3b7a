[package]
name = "story_api"
version = "0.1.0"
edition = "2021"
publish = false

[dependencies]
dotenv = "0.15"
rocket = "0.5"
rocket-multipart-form-data = "0.10"
serde = { version = "1", features = ["derive"] }
serde_json = "1"
sqlx = { version = "0.7", default-features = false, features = ["runtime-tokio", "postgres"] }
