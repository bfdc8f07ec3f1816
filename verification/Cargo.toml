[package]
name = "datastar"
version = "0.3.0"
edition = "2021"
publish = false

[dependencies]
axum = "0.8"
bytes = "1"
rocket = "0.5"
serde = { version = "1", features = ["derive"] }
serde_json = "1"
serde_urlencoded = "0.7"
tracing = "0.1"
warp = "*"
