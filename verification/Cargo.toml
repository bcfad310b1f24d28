[package]
name = "fido2luks"
version = "0.1.0"
edition = "2021"
publish = false

[dependencies]
ctap_hmac = "*"
cryptsetup-rs = "*"
hex = "*"
rpassword = "*"
serde = { version = "1", features = ["derive"] }
serde_json = "1"
