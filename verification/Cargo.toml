[package]
name = "sham"
version = "0.1.0"
edition = "2021"
publish = false

[dependencies]
bytes = "1"
futures-util = "0.3"
http = "1"
mockall = "0.13"
reqwest = { version = "0.12", default-features = false }
serde = "1"
serde_json = "1"
url = "2"
