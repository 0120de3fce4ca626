[package]
name = "client_sender"
version = "0.1.0"
edition = "2021"
publish = false

[dependencies]
serde = "1"
serde_json = "1"
serde_urlencoded = "0.7"
bytes = "1"
futures = "0.3"
