[package]
name = "unidpp_hub"
version = "0.1.0"
edition = "2021"
publish = false

[dependencies]
serde = { version = "1", features = ["derive"] }
serde_json = "1"
serde_yaml = "0.9"
tokio = { version = "1", features = ["rt-multi-thread", "net"] }
axum = "0.8"
utoipa = "5"
utoipa-swagger-ui = { version = "9", features = ["axum"] }
