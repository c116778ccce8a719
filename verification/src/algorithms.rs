//! The primitives that a ciphersuite is made of, as values of this library,
//! and the map from each ciphersuite to them.
use vstd::prelude::*;
use crate::types::{Ciphersuite, spec_hash_length, spec_aead_key_length, spec_aead_nonce_length, spec_mac_length};

verus! {

/// A hash function of the SHA-2 family.
#[derive(Debug, Clone, Copy, PartialEq, Eq, Structural)]
pub enum HashAlgorithm {
    Sha256,
    Sha384,
    Sha512,
}

/// An AEAD algorithm.
#[derive(Debug, Clone, Copy, PartialEq, Eq, Structural)]
pub enum AeadId {
    Aes128Gcm,
    Aes256Gcm,
    ChaCha20Poly1305,
}

/// An HPKE key encapsulation mechanism.
#[derive(Debug, Clone, Copy, PartialEq, Eq, Structural)]
pub enum KemId {
    DhKemP256,
    DhKemP384,
    DhKemP521,
    DhKem25519,
    DhKem448,
    XWingDraft06,
}

/// An HPKE key derivation function.
#[derive(Debug, Clone, Copy, PartialEq, Eq, Structural)]
pub enum KdfId {
    HkdfSha256,
    HkdfSha384,
    HkdfSha512,
}

/// The three algorithms of an HPKE configuration in base mode.
#[derive(Debug, Clone, Copy, PartialEq, Eq, Structural)]
pub struct HpkeSuite {
    pub kem: KemId,
    pub kdf: KdfId,
    pub aead: AeadId,
}

/// The digest length, in bytes, of a hash function.
pub open spec fn digest_length(alg: HashAlgorithm) -> nat {
    match alg {
        HashAlgorithm::Sha256 => 32,
        HashAlgorithm::Sha384 => 48,
        HashAlgorithm::Sha512 => 64,
    }
}

/// The key length, in bytes, of an AEAD algorithm.
pub open spec fn aead_key_len(alg: AeadId) -> nat {
    match alg {
        AeadId::Aes128Gcm => 16,
        AeadId::Aes256Gcm => 32,
        AeadId::ChaCha20Poly1305 => 32,
    }
}

/// The nonce length, in bytes, of the AEAD algorithms here.
pub open spec fn aead_nonce_len() -> nat {
    12
}

/// The tag length, in bytes, of the AEAD algorithms here.
pub open spec fn aead_tag_len() -> nat {
    16
}

/// The hash function of a registered ciphersuite; none for `Custom`.
pub open spec fn suite_hash(cs: Ciphersuite) -> Option<HashAlgorithm> {
    match cs {
        Ciphersuite::MLS_128_DHKEMX25519_AES128GCM_SHA256_Ed25519
        | Ciphersuite::MLS_128_DHKEMP256_AES128GCM_SHA256_P256
        | Ciphersuite::MLS_128_DHKEMX25519_CHACHA20POLY1305_SHA256_Ed25519
        | Ciphersuite::MLS_256_XWING_CHACHA20POLY1305_SHA256_Ed25519 => Some(
            HashAlgorithm::Sha256,
        ),
        Ciphersuite::MLS_256_DHKEMP384_AES256GCM_SHA384_P384 => Some(HashAlgorithm::Sha384),
        Ciphersuite::MLS_256_DHKEMX448_AES256GCM_SHA512_Ed448
        | Ciphersuite::MLS_256_DHKEMP521_AES256GCM_SHA512_P521
        | Ciphersuite::MLS_256_DHKEMX448_CHACHA20POLY1305_SHA512_Ed448 => Some(
            HashAlgorithm::Sha512,
        ),
        Ciphersuite::Custom(_) => None,
    }
}

/// The AEAD of a registered ciphersuite; none for `Custom`.
pub open spec fn suite_aead(cs: Ciphersuite) -> Option<AeadId> {
    match cs {
        Ciphersuite::MLS_128_DHKEMX25519_AES128GCM_SHA256_Ed25519
        | Ciphersuite::MLS_128_DHKEMP256_AES128GCM_SHA256_P256 => Some(AeadId::Aes128Gcm),
        Ciphersuite::MLS_128_DHKEMX25519_CHACHA20POLY1305_SHA256_Ed25519
        | Ciphersuite::MLS_256_DHKEMX448_CHACHA20POLY1305_SHA512_Ed448
        | Ciphersuite::MLS_256_XWING_CHACHA20POLY1305_SHA256_Ed25519 => Some(
            AeadId::ChaCha20Poly1305,
        ),
        Ciphersuite::MLS_256_DHKEMX448_AES256GCM_SHA512_Ed448
        | Ciphersuite::MLS_256_DHKEMP521_AES256GCM_SHA512_P521
        | Ciphersuite::MLS_256_DHKEMP384_AES256GCM_SHA384_P384 => Some(AeadId::Aes256Gcm),
        Ciphersuite::Custom(_) => None,
    }
}

/// The KEM of a registered ciphersuite; none for `Custom`.
pub open spec fn suite_kem(cs: Ciphersuite) -> Option<KemId> {
    match cs {
        Ciphersuite::MLS_128_DHKEMX25519_AES128GCM_SHA256_Ed25519
        | Ciphersuite::MLS_128_DHKEMX25519_CHACHA20POLY1305_SHA256_Ed25519 => Some(
            KemId::DhKem25519,
        ),
        Ciphersuite::MLS_128_DHKEMP256_AES128GCM_SHA256_P256 => Some(KemId::DhKemP256),
        Ciphersuite::MLS_256_DHKEMX448_AES256GCM_SHA512_Ed448
        | Ciphersuite::MLS_256_DHKEMX448_CHACHA20POLY1305_SHA512_Ed448 => Some(
            KemId::DhKem448,
        ),
        Ciphersuite::MLS_256_DHKEMP384_AES256GCM_SHA384_P384 => Some(KemId::DhKemP384),
        Ciphersuite::MLS_256_DHKEMP521_AES256GCM_SHA512_P521 => Some(KemId::DhKemP521),
        Ciphersuite::MLS_256_XWING_CHACHA20POLY1305_SHA256_Ed25519 => Some(
            KemId::XWingDraft06,
        ),
        Ciphersuite::Custom(_) => None,
    }
}

/// The lengths (private key, public key), in bytes, of the two KEMs whose
/// encodings this library relies on: X25519 (32, 32) and P-256 (a 32-byte
/// scalar and a 65-byte uncompressed point). For these Diffie-Hellman KEMs
/// the KEM output is a public key. None for the other KEMs.
pub open spec fn dh_kem_key_lengths(kem: KemId) -> Option<(nat, nat)> {
    match kem {
        KemId::DhKem25519 => Some((32nat, 32nat)),
        KemId::DhKemP256 => Some((32nat, 65nat)),
        _ => None,
    }
}

/// The HPKE KDF of a ciphersuite: HKDF over the suite's hash function.
pub open spec fn kdf_of_hash(alg: HashAlgorithm) -> KdfId {
    match alg {
        HashAlgorithm::Sha256 => KdfId::HkdfSha256,
        HashAlgorithm::Sha384 => KdfId::HkdfSha384,
        HashAlgorithm::Sha512 => KdfId::HkdfSha512,
    }
}

/// The HPKE KDF of a registered ciphersuite; none for `Custom`.
pub open spec fn suite_kdf(cs: Ciphersuite) -> Option<KdfId> {
    match suite_hash(cs) {
        Some(h) => Some(kdf_of_hash(h)),
        None => None,
    }
}

/// Why an HKDF-Extract call failed.
#[derive(Debug, Clone, Copy, PartialEq, Eq, Structural)]
pub enum HkdfExtractFailure {
    /// The output buffer is shorter than the digest.
    PrkTooShort,
    /// The salt or the input keying material is longer than `u32::MAX` bytes.
    ArgumentTooLong,
    /// The call failed for a reason it does not name.
    Unknown,
}

/// Why an HKDF-Expand call failed.
#[derive(Debug, Clone, Copy, PartialEq, Eq, Structural)]
pub enum HkdfExpandFailure {
    /// The pseudorandom key is shorter than the digest.
    PrkTooShort,
    /// More than 255 digests of output were asked for.
    OutputTooLong,
    /// An argument is longer than `u32::MAX` bytes.
    ArgumentTooLong,
    /// The call failed for a reason it does not name.
    Unknown,
}

/// Why an AEAD call failed.
#[derive(Debug, Clone, Copy, PartialEq, Eq, Structural)]
pub enum AeadCallFailure {
    /// The nonce has the wrong length for the algorithm.
    NonceLength,
    /// The key has the wrong length for the algorithm.
    KeyLength,
    /// The tag has the wrong length for the algorithm.
    TagLength,
    /// The authentication tag does not match.
    InvalidTag,
    /// The associated data is too long for the implementation.
    AadTooLong,
    /// The implementation refused the input for another reason.
    Rejected,
}

/// Why a signature operation failed.
#[derive(Debug, Clone, Copy, PartialEq, Eq, Structural)]
pub enum SignatureFailure {
    /// The key bytes do not decode to a key.
    InvalidKey,
    /// The signature bytes do not decode to a signature.
    InvalidEncoding,
    /// The signature does not verify.
    Rejected,
    /// The message is longer than the implementation handles.
    InputTooLong,
    /// No key could be generated.
    KeyGeneration,
}

/// Why an HPKE call failed.
#[derive(Debug, Clone, Copy, PartialEq, Eq, Structural)]
pub enum HpkeFailure {
    /// No HPKE instance could be built (its generator could not be seeded).
    Unavailable,
    /// The configuration does not fit the call.
    InvalidConfig,
    /// An input is malformed.
    InvalidInput,
    /// Any other failure of the HPKE library.
    Other,
}

/// At which stage an HPKE export failed.
#[derive(Debug, Clone, Copy, PartialEq, Eq, Structural)]
pub enum HpkeStageFailure {
    /// No HPKE instance could be built.
    Unavailable,
    /// Setting up the sender or receiver context failed.
    Setup,
    /// Exporting from the context failed.
    Export,
}

/// The bytes of a result, taken by their view.
pub open spec fn bytes_of<E>(r: Result<Vec<u8>, E>) -> Result<Seq<u8>, E> {
    match r {
        Ok(v) => Ok(v@),
        Err(e) => Err(e),
    }
}

/// A pair of byte strings in a result, each taken by its view.
pub open spec fn pair_of<E>(r: Result<(Vec<u8>, Vec<u8>), E>) -> Result<(Seq<u8>, Seq<u8>), E> {
    match r {
        Ok(p) => Ok((p.0@, p.1@)),
        Err(e) => Err(e),
    }
}

/// The hash length that a ciphersuite reports is the digest length of its
/// hash function, and its AEAD key length is the key length of its AEAD.
pub proof fn lemma_suite_lengths(cs: Ciphersuite)
    requires
        !(cs is Custom),
    ensures
        suite_hash(cs) is Some,
        suite_aead(cs) is Some,
        suite_kem(cs) is Some,
        spec_hash_length(cs) == digest_length(suite_hash(cs).unwrap()),
        spec_aead_key_length(cs) == aead_key_len(suite_aead(cs).unwrap()),
        spec_aead_nonce_length() == aead_nonce_len(),
        spec_mac_length() == aead_tag_len(),
{
}

/// The ciphersuite functions name algorithms exactly for the registered
/// suites.
pub proof fn lemma_custom_has_no_algorithms(cs: Ciphersuite)
    ensures
        (cs is Custom) <==> suite_hash(cs) is None,
        (cs is Custom) <==> suite_aead(cs) is None,
        (cs is Custom) <==> suite_kem(cs) is None,
        (cs is Custom) <==> suite_kdf(cs) is None,
{
}

} // verus!
