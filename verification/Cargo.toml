[package]
name = "kodex"
version = "0.1.0"
edition = "2021"
publish = false

[dependencies]
serde_json = "1"
base64 = "0.22"
http = "1"
chrono = "0.4"
