[package]
name = "exam_vault"
version = "0.1.0"
edition = "2021"
publish = false

[dependencies]
aead = "0.5"
aead-io = "=0.2.0"
aes-gcm-siv = "0.11"
rust-argon2 = "2.1"
flate2 = "=1.1.10"
rand = "=0.8.8"
serde = { version = "=1.0.229", features = ["derive"] }
serde_json = "=1.0.154"
serde_with_macros = "=3.24.0"
calamine = "=0.37.0"
opener = "=0.9.0"
log = "=0.4.34"
