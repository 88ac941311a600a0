[package]
name = "screenshot_service"
version = "0.1.0"
edition = "2021"
publish = false

[dependencies]
url = "=2.5.8"
headless_chrome = { version = "=1.0.22", features = ["offline"] }
lambda_http = "=1.3.2"
serde = { version = "=1.0.229", features = ["derive"] }
serde_json = "=1.0.154"
base64 = "=0.23.1"
thiserror = "=2.0.21"
tokio = { version = "=1.54.1", features = ["macros"] }
