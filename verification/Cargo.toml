[package]
name = "guild_model"
version = "0.1.0"
edition = "2021"
publish = false

[dependencies]
extract_map = "=0.3.1"
small-fixed-array = "=0.4.12"
serde = { version = "=1.0.229", features = ["derive"] }
serde_json = "=1.0.154"
tracing = "0.1"
