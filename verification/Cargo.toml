[package]
name = "sushii_processor"
version = "0.1.0"
edition = "2021"
publish = false

[dependencies]
serde = "*"
serde_json = "*"
twilight-model = "*"
darkredis = "*"
tokio = { version = "*", features = ["rt-multi-thread", "macros"] }
