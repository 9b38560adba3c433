[package]
name = "fsrpc"
version = "0.1.0"
edition = "2021"
publish = false

[dependencies]
serde_json = "*"
axum = { version = "*", features = ["ws"] }
tokio = { version = "*", features = ["rt-multi-thread", "macros", "net"] }
futures-util = "*"
