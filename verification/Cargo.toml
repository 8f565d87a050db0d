[package]
name = "router"
version = "0.1.0"
edition = "2021"
publish = false

[dependencies]
serde_json = { version = "1", features = ["preserve_order"] }
serde_urlencoded = "0.7"
base64 = "0.13"
hmac = "0.12"
sha2 = "0.10"
serde = { version = "1", features = ["derive"] }
async-trait = "0.1"
bytes = "1"
error-stack = "0.2"
actix-web = { version = "4", default-features = false }
