[package]
name = "alarkhabil_server"
version = "0.1.0"
edition = "2021"
publish = false

[dependencies]
base64 = "*"
ed25519-dalek = "*"
hmac = "*"
sha2 = "*"
rand = "*"
subtle = "*"
uuid = { version = "*", features = ["v4"] }
