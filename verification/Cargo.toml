[package]
name = "imagen_gateway"
version = "0.1.0"
edition = "2021"
publish = false

[dependencies]
axum = "0.7"
gcp_auth = "*"
gemini-rs = "*"
serde = { version = "1", features = ["derive"] }
tokio = { version = "1", features = ["full"] }
tower-http = { version = "0.5", features = ["compression-full", "fs"] }
tracing = "0.1"
tracing-subscriber = "0.3"
