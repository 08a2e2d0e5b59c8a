[package]
name = "salvo_csrf"
version = "0.1.0"
edition = "2021"
publish = false

[dependencies]
aes-gcm = "*"
base64 = "*"
bcrypt = "*"
chacha20poly1305 = "*"
hmac = "*"
rand = "*"
sha2 = "*"
