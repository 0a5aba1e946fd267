[package]
name = "account_core"
version = "0.1.0"
edition = "2021"
publish = false

[dependencies]
bcrypt = "*"
base64 = "0.13"
captcha = "*"
chrono = "*"
uuid = { version = "*", features = ["v4"] }
