[package]
name = "kubelens_mcp"
version = "0.1.0"
edition = "2021"
publish = false

[dependencies]
serde_json = { version = "=1.0.154", features = ["float_roundtrip"] }
serde = { version = "=1.0.229", features = ["derive"] }
tokio = { version = "=1.54.1", features = ["full"] }
axum = "=0.7.9"
async-trait = "=0.1.92"
kube = "=5.0.0"
k8s-openapi = { version = "=0.29.0", features = ["latest"] }
reqwest = { version = "=0.12.28", default-features = false, features = ["json", "rustls-tls"] }
