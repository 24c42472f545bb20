[package]
name = "axum_backend"
version = "0.1.0"
edition = "2021"
publish = false

[dependencies]
axum = "0.7"
axum-extra = { version = "0.9", features = ["cookie"] }
axum-macros = "0.4"
bb8 = "0.8"
bb8-postgres = "0.8"
chrono = "0.4"
http = "1"
jsonwebtoken = "9"
refinery = { version = "0.8", features = ["tokio-postgres"] }
serde = { version = "1", features = ["derive"] }
serde_json = "1"
sha256 = "1"
time = "0.3"
tokio = { version = "1", features = ["macros", "rt-multi-thread", "net", "fs"] }
tokio-postgres = "0.7"
tower-http = { version = "0.5", features = ["cors"] }
tracing = "0.1"
tracing-subscriber = { version = "0.3", features = ["env-filter"] }
