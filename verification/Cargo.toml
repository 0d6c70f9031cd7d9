[package]
name = "crypto_facade"
version = "0.1.0"
edition = "2021"
publish = false

[dependencies]
base64ct = { version = "=1.8.3", features = ["alloc"] }
blake3 = "=1.8.7"
chacha20poly1305 = "=0.11.0"
ed25519-dalek = "=3.0.0"
getrandom = "=0.4.3"
x25519-dalek = { version = "=3.0.0", features = ["getrandom", "static_secrets"] }
