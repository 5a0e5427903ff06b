[package]
name = "provider_gateway"
version = "0.1.0"
edition = "2021"
publish = false

[dependencies]
axum = "0.7"
reqwest = "0.12"
serde = { version = "1", features = ["derive"] }
serde_json = "1"
sqlx = { version = "0.8", default-features = false, features = ["postgres", "runtime-tokio", "derive"] }
tokio = { version = "1", features = ["full"] }
