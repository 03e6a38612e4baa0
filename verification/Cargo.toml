[package]
name = "dap_adapters"
version = "0.1.0"
edition = "2021"
publish = false

[dependencies]
serde_json = { version = "1.0", features = ["preserve_order"] }
anyhow = "1.0"
