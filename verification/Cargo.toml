[package]
name = "validation"
version = "0.1.0"
edition = "2021"
publish = false

[dependencies]
totp-rs = { version = "5", features = ["gen_secret", "otpauth"] }
url = "2"
