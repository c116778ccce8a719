//! Cryptographic providers for MLS: the shared types (ciphersuites, errors,
//! HPKE values), the mapping of each ciphersuite onto the primitives it
//! uses, and two providers built on outside libraries: one on the RustCrypto
//! crates and one on libcrux.
#![allow(non_camel_case_types)]

pub mod types;
pub mod algorithms;
pub mod rng;
pub mod hpke_calls;
pub mod rustcrypto_calls;
pub mod libcrux_calls;
pub mod rustcrypto_hmac;
pub mod rust_crypto;
pub mod libcrux_crypto;

pub use libcrux_crypto::CryptoProvider;
pub use rust_crypto::{RandError, RustCrypto};
pub use types::{
    Ciphersuite, CryptoError, ExporterSecret, HpkeCiphertext, HpkeConfig, HpkeKeyPair,
    HpkePrivateKey, KemOutput, SignatureScheme, VerifiableCiphersuite,
};
