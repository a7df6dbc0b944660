[package]
name = "tapsdk_pc"
version = "0.1.0"
edition = "2021"
publish = false

[dependencies]
napi = { version = "*", features = ["serde-json"] }
napi-derive = "*"
serde = { version = "*", features = ["derive"] }
serde_json = "*"
tokio = { version = "*", features = ["rt", "time"] }
