[package]
name = "auth_service"
version = "0.1.0"
edition = "2021"
publish = false

[dependencies]
uuid = { version = "1", features = ["v4"] }
rand = "*"
axum = "*"
axum-extra = { version = "*", features = ["cookie"] }
tokio = { version = "1", features = ["full"] }
tower-http = { version = "*", features = ["fs"] }
serde = { version = "1", features = ["derive"] }
