[package]
name = "pushover"
version = "0.4.0"
edition = "2021"
publish = false

[dependencies]
url = "2"
serde_json = "1"
reqwest = { version = "0.11", default-features = false, features = ["blocking"] }
