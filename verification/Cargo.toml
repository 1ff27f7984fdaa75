[package]
name = "voice_chat"
version = "0.1.0"
edition = "2021"
publish = false

[dependencies]
chacha20 = "*"
p256 = { version = "*", default-features = false, features = ["ecdh", "std"] }
rand_core = { version = "0.6", features = ["getrandom"] }
