[package]
name = "status_line"
version = "0.1.0"
edition = "2021"
publish = false

[dependencies]
serde = { version = "1", features = ["derive"] }
serde_json = "1"
tokio = { version = "1", default-features = false, features = ["io-util", "process", "rt", "time"] }
tracing = { version = "0.1", default-features = false, features = ["std"] }
