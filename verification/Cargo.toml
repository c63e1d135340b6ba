[package]
name = "router_pipeline"
version = "0.1.0"
edition = "2021"
publish = false

[dependencies]
http = "*"
serde_json_bytes = "*"
futures = "*"
tower = { version = "*", features = ["util"] }
anyhow = "*"
