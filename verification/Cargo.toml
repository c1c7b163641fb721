[package]
name = "botcore"
version = "0.1.0"
edition = "2021"
publish = false

[dependencies]
serde_json = "1"
chrono = "0.4"
dashmap = "5"
ricq = "0.1"
ricq-axum-api = "0.1"
axum = "0.5"
reqwest = { version = "0.11", default-features = false, features = ["json"] }
tokio = { version = "1", features = ["full"] }
async-trait = "0.1"
