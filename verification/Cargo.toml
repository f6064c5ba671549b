[package]
name = "ipabuyer_core"
version = "0.0.1"
edition = "2021"
publish = false

[dependencies]
serde = { version = "1", features = ["derive"] }
serde_json = "1"
