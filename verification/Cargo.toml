[package]
name = "kv_service"
version = "0.1.0"
edition = "2021"
publish = false

[dependencies]
anyhow = "1"
axum = "0.8"
config = "0.15"
serde = { version = "1", features = ["derive"] }
serde-aux = "4"
tokio = { version = "1", features = ["full"] }
tower = { version = "0.5", features = ["limit", "load-shed", "timeout", "util"] }
tower-http = { version = "0.6", features = ["trace"] }
tracing = "0.1"
tracing-subscriber = "0.3"
uuid = { version = "1", features = ["v4"] }
