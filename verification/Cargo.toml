[package]
name = "dbx_bridge"
version = "0.1.0"
edition = "2021"
publish = false

[dependencies]
eventdbx-client = "*"
serde_json = "1"
tokio = { version = "1", features = ["rt-multi-thread"] }
