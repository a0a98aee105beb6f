[package]
name = "hash_graph_api"
version = "0.1.0"
edition = "2021"
publish = false

[dependencies]
derive-where = "1"
derive_more = { version = "1", features = ["display", "error"] }
error-stack = "0.5"
serde = { version = "1", features = ["derive"] }
tracing = "0.1"
