[package]
name = "authcrypt"
version = "0.1.0"
edition = "2021"
publish = false

[dependencies]
blake3 = { version = "1", features = ["pure"] }
chacha20 = "0.9"
getrandom = "0.2"
zeroize = "1"
