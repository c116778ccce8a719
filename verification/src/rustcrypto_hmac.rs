//! HMAC over the hash function of a ciphersuite, with the `hmac` crate.
use vstd::prelude::*;
use crate::algorithms::{HashAlgorithm, digest_length, suite_hash};
use crate::rustcrypto_calls::{
    hmac_sha256, hmac_sha384, hmac_sha512, rustcrypto_hmac_sha256, rustcrypto_hmac_sha384,
    rustcrypto_hmac_sha512,
};
use crate::types::{Ciphersuite, CryptoError};

verus! {

/// The HMAC tag that the RustCrypto crates compute with a given hash
/// function.
pub open spec fn rustcrypto_hmac_tag(h: HashAlgorithm, key: Seq<u8>, message: Seq<u8>) -> Seq<u8> {
    match h {
        HashAlgorithm::Sha256 => rustcrypto_hmac_sha256(key, message),
        HashAlgorithm::Sha384 => rustcrypto_hmac_sha384(key, message),
        HashAlgorithm::Sha512 => rustcrypto_hmac_sha512(key, message),
    }
}

/// HMAC of `message` under `key` with the hash function of `ciphersuite`;
/// `UnsupportedCiphersuite` for a custom ciphersuite. The tag is as long as
/// the suite's hash.
pub(crate) fn hmac(ciphersuite: Ciphersuite, key: &[u8], message: &[u8]) -> (r: Result<
    Vec<u8>,
    CryptoError,
>)
    ensures
        match suite_hash(ciphersuite) {
            None => r == Err::<Vec<u8>, CryptoError>(CryptoError::UnsupportedCiphersuite),
            Some(h) => r matches Ok(tag) && tag@ == rustcrypto_hmac_tag(h, key@, message@)
                && tag@.len() == digest_length(h),
        },
{
    let digest = match ciphersuite {
        Ciphersuite::MLS_128_DHKEMX25519_AES128GCM_SHA256_Ed25519
        | Ciphersuite::MLS_128_DHKEMP256_AES128GCM_SHA256_P256
        | Ciphersuite::MLS_128_DHKEMX25519_CHACHA20POLY1305_SHA256_Ed25519
        | Ciphersuite::MLS_256_XWING_CHACHA20POLY1305_SHA256_Ed25519 => {
            match hmac_sha256(key, message) {
                Ok(tag) => tag,
                Err(_) => return Err(CryptoError::InvalidLength),
            }
        },
        Ciphersuite::MLS_256_DHKEMP384_AES256GCM_SHA384_P384 => {
            match hmac_sha384(key, message) {
                Ok(tag) => tag,
                Err(_) => return Err(CryptoError::InvalidLength),
            }
        },
        Ciphersuite::MLS_256_DHKEMX448_AES256GCM_SHA512_Ed448
        | Ciphersuite::MLS_256_DHKEMP521_AES256GCM_SHA512_P521
        | Ciphersuite::MLS_256_DHKEMX448_CHACHA20POLY1305_SHA512_Ed448 => {
            match hmac_sha512(key, message) {
                Ok(tag) => tag,
                Err(_) => return Err(CryptoError::InvalidLength),
            }
        },
        Ciphersuite::Custom(_) => return Err(CryptoError::UnsupportedCiphersuite),
    };
    Ok(digest)
}

} // verus!
