[package]
name = "eodhd"
version = "0.1.0"
edition = "2021"
publish = false

[dependencies]
log = "=0.4.34"
reqwest = { version = "=0.11.27", features = ["json"] }
serde = "=1.0.229"

[dev-dependencies]
serde_json = "=1.0.154"
