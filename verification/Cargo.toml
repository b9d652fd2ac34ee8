[package]
name = "api_gemini"
version = "0.1.0"
edition = "2021"
publish = false

[dependencies]
serde = { version = "=1.0.229", features = ["derive"] }
serde_json = "=1.0.154"
tokio = { version = "=1.54.1", features = ["rt", "sync", "time", "macros"] }
futures = "=0.3.34"
reqwest = { version = "=0.12.28", default-features = false, features = ["json"] }
uuid = { version = "1", features = ["v4"] }
backoff = { version = "0.4", features = ["tokio"] }
async-stream = "0.3"
async-trait = "0.1"
bytes = "1"
notify = "6"
