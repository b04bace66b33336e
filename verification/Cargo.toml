[package]
name = "aegis_vault"
version = "0.1.0"
edition = "2021"
publish = false

[dependencies]
aes-gcm = "0.10"
base64 = "0.22"
hex = "0.4"
password-hash = "0.5"
scrypt = "0.11"
serde = { version = "1", features = ["derive"] }
serde_json = "1"
color-eyre = "0.6"
dialoguer = "0.11"
