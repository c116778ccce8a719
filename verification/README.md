# openmls_crypto

Cryptographic providers for MLS, verified with Verus.

- `src/types.rs`: ciphersuites and their code points, errors, signature
  schemes and the HPKE value types, with the laws of the code-point
  conversions.
- `src/algorithms.rs`: the primitives each ciphersuite is made of (hash,
  AEAD, KEM, KDF) and the lengths they imply.
- `src/rust_crypto.rs`: `RustCrypto`, the provider on the RustCrypto crates
  and `hpke-rs` with its RustCrypto backend.
- `src/libcrux_crypto.rs`: `CryptoProvider`, the provider on libcrux and
  `hpke-rs` with its libcrux backend.
- `src/rustcrypto_calls.rs`, `src/libcrux_calls.rs`, `src/hpke_calls.rs`,
  `src/rng.rs`: the trusted calls into the outside crates; each contract
  restates what the called crate documents or its source shows.
- `app/`: serde and TLS-codec forms of the value types, and error types with
  `Display`.

Both providers state, for every input, which result or error they give in
terms of named results of the outside crates, and prove the round trips
that the primitives promise: AEAD decryption of an encryption, signature
verification of a signature, HPKE opening of a sealed message and agreement
of the sender's and receiver's exported secrets (for the Diffie-Hellman
KEMs; X-Wing decapsulation may fail with negligible probability), HKDF
output prefixes and extraction as HMAC. These proofs rest on the trusted
contracts of the outside calls.
