[package]
name = "otp_pad"
version = "0.1.0"
edition = "2021"
publish = false

[dependencies]
aes = "0.8"
argon2 = "0.5"
ctr = "0.9"
rand = "0.8"
rand_chacha = "0.3"
zeroize = "1"
