[package]
name = "graph_core"
version = "0.1.0"
edition = "2021"
publish = false

[dependencies]
axum = "0.6"
error-stack = "0.4"
futures = "0.3"
serde = { version = "1", features = ["derive"] }
serde_json = "1"
tracing = "0.1"
utoipa = "4"
