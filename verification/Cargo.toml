[package]
name = "paperplane"
version = "0.1.0"
edition = "2021"
publish = false

[dependencies]
crossbeam = "0.8"
futures = "0.3"
log = "0.4"
serde = { version = "1", features = ["derive"] }
serde_json = "1"
tokio = { version = "1", features = ["rt"] }
uuid = { version = "0.8", features = ["v4"] }
