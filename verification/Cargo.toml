[package]
name = "verdictd"
version = "0.1.0"
edition = "2021"
publish = false

[dependencies]
aes-gcm = "0.9"
base64 = "0.13"
rand = "0.8"
serde_json = "1"
