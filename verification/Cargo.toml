[package]
name = "nsq_client"
version = "0.1.0"
edition = "2021"
publish = false

[dependencies]
serde_json = "1"
hostname = "0.1"
serde = { version = "1", features = ["derive"] }
crossbeam = "0.8"
backoff = "0.4"
