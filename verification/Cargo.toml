[package]
name = "axum_spa"
version = "0.1.0"
edition = "2021"
publish = false

[dependencies]
axum = "0.6"
http-body = "0.4"
tokio = { version = "1", features = ["full"] }
tower = { version = "0.4", features = ["util"] }
tower-http = { version = "0.4", features = ["fs", "trace"] }
tracing-subscriber = { version = "0.3", features = ["env-filter"] }

[dev-dependencies]
serde_json = "1"
