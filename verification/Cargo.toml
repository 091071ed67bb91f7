[package]
name = "image_uploader"
version = "0.1.0"
edition = "2021"
publish = false

[dependencies]
axum = { version = "0.6", features = ["ws"] }
flexi_logger = { version = "0.25", features = ["async"] }
futures = "0.3"
image = "0.24"
log = "0.4"
rusqlite = "0.29"
serde = { version = "1", features = ["derive"] }
tokio = { version = "1", features = ["full"] }
uuid = { version = "1", features = ["v4"] }
webp = "0.2"
