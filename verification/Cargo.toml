[package]
name = "kubeless"
version = "0.1.0"
edition = "2021"
publish = false

[dependencies]
futures = "0.3"
jiff = { version = "0.2", default-features = false, features = ["std", "serde"] }
k8s-openapi = { version = "0.28", features = ["latest"] }
serde = { version = "1", features = ["derive"] }
serde_json = "1"
tokio = { version = "1", features = ["time"] }
tracing = "0.1"
