[package]
name = "auth_client"
version = "0.1.0"
edition = "2021"
publish = false

[dependencies]
reqwest = { version = "=0.12.28", features = ["json"] }
serde = { version = "=1.0.229", features = ["derive"] }
serde_json = "=1.0.154"

[dev-dependencies]
http = "=1.5.0"
tokio = { version = "=1.54.1", features = ["rt"] }
