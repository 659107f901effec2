[package]
name = "keymint_ta"
version = "0.1.0"
edition = "2021"
publish = false

[dependencies]
ciborium = "=0.2.2"
coset = "=0.3.8"
log = "=0.4.34"

[dev-dependencies]
aes-gcm = "0.10"
hmac = "0.12"
sha2 = "0.10"
