[package]
name = "secure_storage"
version = "0.1.0"
edition = "2021"
publish = false

[dependencies]
aes-gcm = "0.10"
keyring = "1"
kv = "0.24"
rand = "0.8"
