[package]
name = "pgp"
version = "0.1.0"
edition = "2021"
publish = false

[dependencies]
aes = "=0.8.4"
aes-kw = { version = "=0.2.1", features = ["alloc"] }
block-padding = "=0.3.3"
cfb-mode = "=0.8.2"
chrono = { version = "=0.4.45", default-features = false }
curve25519-dalek = "=4.1.3"
generic-array = "=0.14.7"
rand = "=0.8.8"
rsa = "=0.9.10"
sha1 = "=0.10.7"
sha2 = "=0.10.9"
x25519-dalek = { version = "=2.0.1", features = ["static_secrets"] }
zeroize = "=1.9.1"

[dev-dependencies]
rand_chacha = "=0.3.1"
