[package]
name = "heliotrope"
version = "0.1.0"
edition = "2021"
publish = false

[dependencies]
serde_json = "*"
url = "*"
ureq = { version = "2", default-features = false }
