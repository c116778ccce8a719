[package]
name = "openmls_crypto"
version = "0.1.0"
edition = "2021"
publish = false

[dependencies]
aes-gcm = "=0.11.1"
chacha20poly1305 = "=0.11.0"
ed25519-dalek = { version = "=3.0.0", features = ["rand_core"] }
hkdf = "=0.13.0"
hmac = "=0.13.0"
p256 = "=0.14.0"
sha2 = "=0.11.1"
rand = "=0.10.3"
rand_chacha = "=0.10.0"
hpke-rs = { version = "=0.8.0", features = ["hazmat"] }
hpke-rs-crypto = "=0.8.0"
hpke-rs-rust-crypto = "=0.8.0"
hpke-rs-libcrux = "=0.8.0"
libcrux-aead = "=0.0.10"
libcrux-ed25519 = { version = "=0.0.10", features = ["rand"] }
libcrux-hkdf = "=0.0.9"
libcrux-hmac = "=0.0.9"
libcrux-sha2 = "=0.0.9"
libcrux-traits = "=0.0.9"
serde = { version = "=1.0.229", features = ["derive"] }
thiserror = "=2.0.21"
tls_codec = { version = "=0.4.2", features = ["derive", "serde"] }
