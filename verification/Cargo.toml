[package]
name = "auth_service"
version = "0.1.0"
edition = "2021"
publish = false

[dependencies]
async-trait = "=0.1.92"
axum = "=0.8.9"
axum-extra = { version = "=0.10.3", features = ["cookie"] }
dotenvy = "=0.15.7"
jsonwebtoken = { version = "9", default-features = false }
rand = "=0.9.5"
serde = { version = "=1.0.229", features = ["derive"] }
tokio = { version = "=1.54.1", features = ["macros", "rt-multi-thread", "sync", "net"] }
uuid = { version = "=1.29.1", features = ["v4"] }
validator = { version = "=0.20.0", features = ["derive"] }
