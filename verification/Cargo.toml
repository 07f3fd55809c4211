[package]
name = "deepseek-api"
version = "0.1.0"
edition = "2021"

[dependencies]
anyhow = "1"
reqwest = "0.12"
serde_json = "1"
