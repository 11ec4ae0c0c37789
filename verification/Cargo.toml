[package]
name = "secure_channel"
version = "0.1.0"
edition = "2021"
publish = false

[dependencies]
aes-gcm = "=0.10.3"
anyhow = "=1.0.104"
log = "=0.4.34"
rand_core = { version = "=0.6.4", features = ["getrandom"] }
x25519-dalek = { version = "=2.0.1", features = ["static_secrets"] }
