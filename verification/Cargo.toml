[package]
name = "arena_core"
version = "0.1.0"
edition = "2021"
publish = false

[dependencies]
rand = "0.8"
actix = "0.13"
actix-web = "4"
actix-web-actors = "4"
actix-cors = "0.7"
chrono = "0.4"
env_logger = "0.11"
log = "0.4"
reqwest = { version = "0.12", default-features = false, features = ["json"] }
serde = { version = "1", features = ["derive"] }
serde_json = "1"
tokio = { version = "1", features = ["full"] }
uuid = { version = "1", features = ["v4"] }
