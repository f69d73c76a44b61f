[package]
name = "auth_core"
version = "0.1.0"
edition = "2021"
publish = false

[dependencies]
argon2 = { version = "0.5", features = ["std"] }
jsonwebtoken = "9"
regex = "1"
serde_json = "1"
uuid = { version = "1", features = ["v4"] }
zxcvbn = "2"
