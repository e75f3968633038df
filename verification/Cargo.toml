[package]
name = "livehub"
version = "0.1.0"
edition = "2021"
publish = false

[dependencies]
url = "*"
serde_json = "*"
reqwest = { version = "*", default-features = false, features = ["blocking", "json", "default-tls"] }
uuid = { version = "*", features = ["v4"] }
