[package]
name = "warp-tasks-mcp"
version = "1.0.0"
edition = "2021"
publish = false

[dependencies]
anyhow = "1"
chrono = "0.4"
deadpool-redis = "0.14"
env_logger = "0.11"
fastrand = "2"
flate2 = "1"
log = "0.4"
lru = "0.12"
metrics = "0.22"
redis = { version = "0.24", features = ["tokio-comp", "json"] }
reqwest = { version = "0.11", default-features = false, features = ["json", "rustls-tls"] }
serde = { version = "1", features = ["derive"] }
serde_json = "1"
tokio = { version = "1", features = ["full"] }
uuid = { version = "1", features = ["v4"] }
