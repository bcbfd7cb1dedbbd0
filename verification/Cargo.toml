[package]
name = "llama_agent"
version = "0.1.0"
edition = "2021"
publish = false

[dependencies]
reqwest = { version = "=0.12.28", default-features = false }
serde = "=1.0.229"
serde_derive = "=1.0.229"
serde_json = "=1.0.154"
