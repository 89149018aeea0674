[package]
name = "secrt"
version = "0.1.0"
edition = "2021"
publish = false

[dependencies]
aes-gcm = "0.10"
hkdf = "0.12"
pbkdf2 = "0.12"
serde_json = "1"
sha2 = "0.10"
