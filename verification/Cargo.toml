[package]
name = "movie_store"
version = "0.1.0"
edition = "2021"
publish = false

[dependencies]
axum = "*"
axum-server = "*"
serde = { version = "*", features = ["derive"] }
serde_json = "*"
tokio = { version = "*", features = ["rt-multi-thread", "macros"] }
