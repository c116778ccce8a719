//! The crypto provider built on libcrux and on `hpke-rs` with its libcrux
//! backend.
use vstd::prelude::*;
use crate::algorithms::{
    AeadCallFailure, AeadId, HashAlgorithm, HkdfExpandFailure, HkdfExtractFailure, HpkeFailure,
    HpkeStageFailure, HpkeSuite, KdfId, KemId, SignatureFailure, aead_key_len, bytes_of,
    digest_length, dh_kem_key_lengths, suite_aead, suite_hash, suite_kdf, suite_kem,
};
use crate::hpke_calls::{
    libcrux_hpke_derive_key_pair, libcrux_hpke_derived_key_pair, libcrux_hpke_open,
    libcrux_hpke_opened, libcrux_hpke_receiver_export, libcrux_hpke_receiver_secret,
    libcrux_hpke_seal, libcrux_hpke_sender_export,
};
use crate::libcrux_calls::{
    aead_decrypt_into, aead_encrypt_into, ed25519_generate, ed25519_sign, ed25519_verify,
    hkdf_expand_into, hkdf_extract_into, hmac_into, libcrux_aead_lengths_ok, libcrux_aead_opened,
    libcrux_aead_sealed,
    libcrux_ed25519_accepts, libcrux_ed25519_public_key, libcrux_ed25519_signature, libcrux_hkdf_okm, libcrux_hkdf_prk,
    libcrux_hmac_tag, libcrux_sha256, libcrux_sha384, libcrux_sha512, sha256_digest, sha384_digest,
    sha512_digest,
};
use crate::rng::{chacha_try_from_system, mutex_lock, mutex_new};
use crate::rust_crypto::{
    keypair_of, or_unsupported, rustcrypto_digest, rustcrypto_expand, rustcrypto_seal, secret_of,
};
use crate::rustcrypto_hmac::rustcrypto_hmac_tag;
use crate::types::{
    spec_aead_key_length, spec_aead_nonce_length, spec_hash_length, spec_mac_length,
    Ciphersuite, CryptoError, ExporterSecret, HpkeCiphertext, HpkeKeyPair, HpkePrivateKey,
    KemOutput, SignatureScheme,
};

verus! {

/// The libcrux-backed cryptography provider: the libcrux primitives and a
/// ChaCha20 generator, seeded from the operating system, behind a mutex.
pub struct CryptoProvider {
    rng: std::sync::Mutex<rand_chacha::ChaCha20Rng>,
}

/// The ciphersuites that this provider supports.
pub open spec fn libcrux_supports(cs: Ciphersuite) -> bool {
    cs == Ciphersuite::MLS_128_DHKEMX25519_AES128GCM_SHA256_Ed25519 || cs
        == Ciphersuite::MLS_128_DHKEMX25519_CHACHA20POLY1305_SHA256_Ed25519 || cs
        == Ciphersuite::MLS_256_XWING_CHACHA20POLY1305_SHA256_Ed25519
}

/// The list of supported ciphersuites, in the order the provider gives it.
pub open spec fn libcrux_supported_list() -> Seq<Ciphersuite> {
    seq![
        Ciphersuite::MLS_128_DHKEMX25519_AES128GCM_SHA256_Ed25519,
        Ciphersuite::MLS_128_DHKEMX25519_CHACHA20POLY1305_SHA256_Ed25519,
        Ciphersuite::MLS_256_XWING_CHACHA20POLY1305_SHA256_Ed25519,
    ]
}

/// The HPKE configuration of a ciphersuite in this provider (X-Wing
/// included).
pub open spec fn libcrux_hpke_suite(cs: Ciphersuite) -> Option<HpkeSuite> {
    match (suite_kem(cs), suite_kdf(cs), suite_aead(cs)) {
        (Some(kem), Some(kdf), Some(aead)) => Some(HpkeSuite { kem, kdf, aead }),
        _ => None,
    }
}

/// The digest that libcrux computes with a hash function.
pub open spec fn libcrux_digest(h: HashAlgorithm, data: Seq<u8>) -> Seq<u8> {
    match h {
        HashAlgorithm::Sha256 => libcrux_sha256(data),
        HashAlgorithm::Sha384 => libcrux_sha384(data),
        HashAlgorithm::Sha512 => libcrux_sha512(data),
    }
}

/// Whether the inputs of a libcrux call fit its `u32` length fields.
pub open spec fn fits_u32(len: nat) -> bool {
    len <= u32::MAX
}

/// What `hkdf_extract` returns.
pub open spec fn libcrux_extract_result(cs: Ciphersuite, salt: Seq<u8>, ikm: Seq<u8>) -> Result<
    Seq<u8>,
    CryptoError,
> {
    match suite_hash(cs) {
        None => Err(CryptoError::UnsupportedCiphersuite),
        Some(h) => if !fits_u32(salt.len()) || !fits_u32(ikm.len()) {
            Err(CryptoError::InvalidLength)
        } else {
            Ok(libcrux_hkdf_prk(h, salt, ikm))
        },
    }
}

/// What `hkdf_expand` returns.
pub open spec fn libcrux_expand_result(
    cs: Ciphersuite,
    prk: Seq<u8>,
    info: Seq<u8>,
    okm_len: nat,
) -> Result<Seq<u8>, CryptoError> {
    match suite_hash(cs) {
        None => Err(CryptoError::UnsupportedCiphersuite),
        Some(h) => if prk.len() < digest_length(h) {
            Err(CryptoError::InvalidLength)
        } else if okm_len > 255 * digest_length(h) {
            Err(CryptoError::HkdfOutputLengthInvalid)
        } else if !fits_u32(info.len()) {
            Err(CryptoError::InvalidLength)
        } else {
            Ok(libcrux_hkdf_okm(h, prk, info, okm_len))
        },
    }
}

/// What `aead_encrypt` returns.
pub open spec fn libcrux_aead_encrypt_result(
    cs: Ciphersuite,
    key: Seq<u8>,
    nonce: Seq<u8>,
    aad: Seq<u8>,
    data: Seq<u8>,
) -> Result<Seq<u8>, CryptoError> {
    match suite_aead(cs) {
        None => Err(CryptoError::UnsupportedCiphersuite),
        Some(a) => if nonce.len() != 12 || key.len() != aead_key_len(a) {
            Err(CryptoError::InvalidLength)
        } else {
            match libcrux_aead_sealed(a, key, nonce, aad, data) {
                Ok(c) => Ok(c),
                Err(_) => Err(CryptoError::CryptoLibraryError),
            }
        },
    }
}

/// A failed decryption call as the provider reports it.
pub open spec fn libcrux_decrypt_error(f: AeadCallFailure) -> CryptoError {
    match f {
        AeadCallFailure::InvalidTag => CryptoError::AeadDecryptionError,
        AeadCallFailure::AadTooLong => CryptoError::InvalidLength,
        AeadCallFailure::NonceLength => CryptoError::InvalidLength,
        AeadCallFailure::KeyLength => CryptoError::InvalidLength,
        AeadCallFailure::TagLength => CryptoError::InvalidLength,
        AeadCallFailure::Rejected => CryptoError::CryptoLibraryError,
    }
}

/// What `aead_decrypt` returns: `ct_tag` is split before its last 16 bytes
/// into ciphertext and tag.
pub open spec fn libcrux_aead_decrypt_result(
    cs: Ciphersuite,
    key: Seq<u8>,
    nonce: Seq<u8>,
    aad: Seq<u8>,
    ct_tag: Seq<u8>,
) -> Result<Seq<u8>, CryptoError> {
    match suite_aead(cs) {
        None => Err(CryptoError::UnsupportedCiphersuite),
        Some(a) => if ct_tag.len() < 16 || nonce.len() != 12 || key.len() != aead_key_len(a) {
            Err(CryptoError::InvalidLength)
        } else {
            let boundary = ct_tag.len() - 16;
            match libcrux_aead_opened(
                a,
                key,
                nonce,
                aad,
                ct_tag.take(boundary),
                ct_tag.skip(boundary),
            ) {
                Ok(p) => Ok(p),
                Err(f) => Err(libcrux_decrypt_error(f)),
            }
        },
    }
}

/// What `verify_signature` returns.
pub open spec fn libcrux_verify_result(
    alg: SignatureScheme,
    data: Seq<u8>,
    pk: Seq<u8>,
    signature: Seq<u8>,
) -> Result<(), CryptoError> {
    if alg != SignatureScheme::ED25519 {
        Err(CryptoError::UnsupportedSignatureScheme)
    } else if pk.len() != 32 || signature.len() != 64 {
        Err(CryptoError::InvalidLength)
    } else if !fits_u32(data.len()) {
        Err(CryptoError::SigningError)
    } else if libcrux_ed25519_accepts(pk, data, signature) {
        Ok(())
    } else {
        Err(CryptoError::InvalidSignature)
    }
}

/// What `sign` returns.
pub open spec fn libcrux_sign_result(alg: SignatureScheme, data: Seq<u8>, key: Seq<u8>) -> Result<
    Seq<u8>,
    CryptoError,
> {
    if alg != SignatureScheme::ED25519 {
        Err(CryptoError::UnsupportedSignatureScheme)
    } else if key.len() != 32 {
        Err(CryptoError::InvalidLength)
    } else if !fits_u32(data.len()) {
        Err(CryptoError::SigningError)
    } else {
        Ok(libcrux_ed25519_signature(key, data))
    }
}

/// What `hpke_open` returns, unless the HPKE instance cannot be built.
pub open spec fn libcrux_hpke_open_result(
    cs: Ciphersuite,
    enc: Seq<u8>,
    sk_r: Seq<u8>,
    info: Seq<u8>,
    aad: Seq<u8>,
    ct: Seq<u8>,
) -> Result<Seq<u8>, CryptoError> {
    match libcrux_hpke_suite(cs) {
        None => Err(CryptoError::UnsupportedCiphersuite),
        Some(s) => match libcrux_hpke_opened(s, enc, sk_r, info, aad, ct) {
            Ok(p) => Ok(p),
            Err(HpkeFailure::InvalidConfig) => Err(CryptoError::ReceiverSetupError),
            Err(_) => Err(CryptoError::HpkeDecryptionError),
        },
    }
}

/// What `hpke_setup_receiver_and_export` returns, unless the HPKE instance
/// cannot be built.
pub open spec fn libcrux_receiver_export_result(
    cs: Ciphersuite,
    enc: Seq<u8>,
    sk_r: Seq<u8>,
    info: Seq<u8>,
    exporter_context: Seq<u8>,
    length: nat,
) -> Result<Seq<u8>, CryptoError> {
    match libcrux_hpke_suite(cs) {
        None => Err(CryptoError::UnsupportedCiphersuite),
        Some(s) => match libcrux_hpke_receiver_secret(s, enc, sk_r, info, exporter_context, length) {
            Ok(x) => Ok(x),
            Err(HpkeStageFailure::Export) => Err(CryptoError::ExporterError),
            Err(_) => Err(CryptoError::ReceiverSetupError),
        },
    }
}

/// What `derive_hpke_keypair` returns, unless the HPKE instance cannot be
/// built.
pub open spec fn libcrux_derive_result(cs: Ciphersuite, ikm: Seq<u8>) -> Result<
    (Seq<u8>, Seq<u8>),
    CryptoError,
> {
    match libcrux_hpke_suite(cs) {
        None => Err(CryptoError::UnsupportedCiphersuite),
        Some(s) => match libcrux_hpke_derived_key_pair(s, ikm) {
            Ok(p) => Ok(p),
            Err(HpkeFailure::InvalidConfig) => Err(CryptoError::InvalidLength),
            Err(_) => Err(CryptoError::CryptoLibraryError),
        },
    }
}

/// `supports` accepts exactly the ciphersuites that
/// `supported_ciphersuites` lists.
pub proof fn lemma_libcrux_supports_listed(cs: Ciphersuite)
    ensures
        libcrux_supports(cs) <==> libcrux_supported_list().contains(cs),
{
    let l = libcrux_supported_list();
    if libcrux_supports(cs) {
        if cs == Ciphersuite::MLS_128_DHKEMX25519_AES128GCM_SHA256_Ed25519 {
            assert(l[0] == cs);
        } else if cs == Ciphersuite::MLS_128_DHKEMX25519_CHACHA20POLY1305_SHA256_Ed25519 {
            assert(l[1] == cs);
        } else {
            assert(l[2] == cs);
        }
    }
}

/// Every ciphersuite that this provider supports has all of its algorithms
/// here: a hash function, an AEAD and a complete HPKE configuration, so
/// none of the provider's operations answers `UnsupportedCiphersuite` for it.
pub proof fn lemma_libcrux_supported_is_complete(cs: Ciphersuite)
    requires
        libcrux_supports(cs),
    ensures
        suite_hash(cs) is Some,
        suite_aead(cs) is Some,
        libcrux_hpke_suite(cs) is Some,
{
}

/// The HPKE configuration that this provider uses for a ciphersuite is
/// the suite's own: its KEM, the HKDF over its hash function, and its AEAD.
/// Every registered suite has one.
pub proof fn lemma_libcrux_hpke_suite_is_the_ciphersuites_own(cs: Ciphersuite)
    ensures
        libcrux_hpke_suite(cs) matches Some(s) ==> Some(s.kem) == suite_kem(cs) && Some(s.kdf)
            == suite_kdf(cs) && Some(s.aead) == suite_aead(cs),
        libcrux_hpke_suite(cs) is Some <==> !(cs is Custom),
{
}

/// Verification accepts only what `libcrux-ed25519` accepts: an Ed25519
/// signature of 64 bytes under a 32-byte key that the verifier accepts on
/// that message, whatever the message's length; every other scheme is
/// refused.
pub proof fn lemma_libcrux_verify_is_sound(
    alg: SignatureScheme,
    data: Seq<u8>,
    pk: Seq<u8>,
    signature: Seq<u8>,
)
    ensures
        libcrux_verify_result(alg, data, pk, signature) is Ok <==> alg == SignatureScheme::ED25519
            && pk.len() == 32 && signature.len() == 64 && data.len() <= u32::MAX
            && libcrux_ed25519_accepts(pk, data, signature),
{
}

/// The digest length of a hash function.
fn digest_len(h: HashAlgorithm) -> (n: usize)
    ensures
        n == digest_length(h),
{
    match h {
        HashAlgorithm::Sha256 => 32,
        HashAlgorithm::Sha384 => 48,
        HashAlgorithm::Sha512 => 64,
    }
}

/// The HPKE configuration of a ciphersuite in this provider.
fn hpke_config(ciphersuite: Ciphersuite) -> (r: Result<HpkeSuite, CryptoError>)
    ensures
        r == or_unsupported(libcrux_hpke_suite(ciphersuite)),
        r matches Ok(st) ==> Some(st.kem) == suite_kem(ciphersuite) && Some(st.kdf) == suite_kdf(
            ciphersuite,
        ) && Some(st.aead) == suite_aead(ciphersuite),
{
    let kem = hpke_kem(ciphersuite)?;
    let kdf = hpke_kdf(ciphersuite)?;
    let aead = hpke_aead(ciphersuite)?;
    Ok(HpkeSuite { kem, kdf, aead })
}

/// The HPKE KDF of a ciphersuite: HKDF over its hash function.
fn hpke_kdf(ciphersuite: Ciphersuite) -> (r: Result<KdfId, CryptoError>)
    ensures
        r == or_unsupported(suite_kdf(ciphersuite)),
{
    match ciphersuite {
        Ciphersuite::MLS_128_DHKEMX25519_AES128GCM_SHA256_Ed25519
        | Ciphersuite::MLS_128_DHKEMP256_AES128GCM_SHA256_P256
        | Ciphersuite::MLS_128_DHKEMX25519_CHACHA20POLY1305_SHA256_Ed25519
        | Ciphersuite::MLS_256_XWING_CHACHA20POLY1305_SHA256_Ed25519 => Ok(KdfId::HkdfSha256),
        Ciphersuite::MLS_256_DHKEMP384_AES256GCM_SHA384_P384 => Ok(KdfId::HkdfSha384),
        Ciphersuite::MLS_256_DHKEMX448_AES256GCM_SHA512_Ed448
        | Ciphersuite::MLS_256_DHKEMP521_AES256GCM_SHA512_P521
        | Ciphersuite::MLS_256_DHKEMX448_CHACHA20POLY1305_SHA512_Ed448 => Ok(KdfId::HkdfSha512),
        Ciphersuite::Custom(_) => Err(CryptoError::UnsupportedCiphersuite),
    }
}

/// The HPKE KEM of a ciphersuite, X-Wing included.
fn hpke_kem(ciphersuite: Ciphersuite) -> (r: Result<KemId, CryptoError>)
    ensures
        r == or_unsupported(suite_kem(ciphersuite)),
{
    match ciphersuite {
        Ciphersuite::MLS_128_DHKEMX25519_AES128GCM_SHA256_Ed25519
        | Ciphersuite::MLS_128_DHKEMX25519_CHACHA20POLY1305_SHA256_Ed25519 => Ok(
            KemId::DhKem25519,
        ),
        Ciphersuite::MLS_128_DHKEMP256_AES128GCM_SHA256_P256 => Ok(KemId::DhKemP256),
        Ciphersuite::MLS_256_DHKEMX448_AES256GCM_SHA512_Ed448
        | Ciphersuite::MLS_256_DHKEMX448_CHACHA20POLY1305_SHA512_Ed448 => Ok(KemId::DhKem448),
        Ciphersuite::MLS_256_DHKEMP384_AES256GCM_SHA384_P384 => Ok(KemId::DhKemP384),
        Ciphersuite::MLS_256_DHKEMP521_AES256GCM_SHA512_P521 => Ok(KemId::DhKemP521),
        Ciphersuite::MLS_256_XWING_CHACHA20POLY1305_SHA256_Ed25519 => Ok(KemId::XWingDraft06),
        Ciphersuite::Custom(_) => Err(CryptoError::UnsupportedCiphersuite),
    }
}

/// The HPKE AEAD of a ciphersuite.
fn hpke_aead(ciphersuite: Ciphersuite) -> (r: Result<AeadId, CryptoError>)
    ensures
        r == or_unsupported(suite_aead(ciphersuite)),
{
    match ciphersuite {
        Ciphersuite::MLS_128_DHKEMX25519_AES128GCM_SHA256_Ed25519
        | Ciphersuite::MLS_128_DHKEMP256_AES128GCM_SHA256_P256 => Ok(AeadId::Aes128Gcm),
        Ciphersuite::MLS_128_DHKEMX25519_CHACHA20POLY1305_SHA256_Ed25519
        | Ciphersuite::MLS_256_XWING_CHACHA20POLY1305_SHA256_Ed25519 => Ok(
            AeadId::ChaCha20Poly1305,
        ),
        Ciphersuite::MLS_256_DHKEMX448_AES256GCM_SHA512_Ed448
        | Ciphersuite::MLS_256_DHKEMP384_AES256GCM_SHA384_P384
        | Ciphersuite::MLS_256_DHKEMP521_AES256GCM_SHA512_P521 => Ok(AeadId::Aes256Gcm),
        Ciphersuite::MLS_256_DHKEMX448_CHACHA20POLY1305_SHA512_Ed448 => Ok(
            AeadId::ChaCha20Poly1305,
        ),
        Ciphersuite::Custom(_) => Err(CryptoError::UnsupportedCiphersuite),
    }
}

/// The HKDF hash function of a ciphersuite.
fn hkdf_alg(ciphersuite: Ciphersuite) -> (r: Result<HashAlgorithm, CryptoError>)
    ensures
        r == or_unsupported(suite_hash(ciphersuite)),
{
    match ciphersuite {
        Ciphersuite::MLS_128_DHKEMX25519_AES128GCM_SHA256_Ed25519
        | Ciphersuite::MLS_128_DHKEMP256_AES128GCM_SHA256_P256
        | Ciphersuite::MLS_128_DHKEMX25519_CHACHA20POLY1305_SHA256_Ed25519
        | Ciphersuite::MLS_256_XWING_CHACHA20POLY1305_SHA256_Ed25519 => Ok(HashAlgorithm::Sha256),
        Ciphersuite::MLS_256_DHKEMP384_AES256GCM_SHA384_P384 => Ok(HashAlgorithm::Sha384),
        Ciphersuite::MLS_256_DHKEMX448_AES256GCM_SHA512_Ed448
        | Ciphersuite::MLS_256_DHKEMP521_AES256GCM_SHA512_P521
        | Ciphersuite::MLS_256_DHKEMX448_CHACHA20POLY1305_SHA512_Ed448 => Ok(HashAlgorithm::Sha512),
        Ciphersuite::Custom(_) => Err(CryptoError::UnsupportedCiphersuite),
    }
}

/// The HMAC hash function of a ciphersuite.
fn hash_alg(ciphersuite: Ciphersuite) -> (r: Result<HashAlgorithm, CryptoError>)
    ensures
        r == or_unsupported(suite_hash(ciphersuite)),
{
    match ciphersuite {
        Ciphersuite::MLS_128_DHKEMX25519_AES128GCM_SHA256_Ed25519
        | Ciphersuite::MLS_128_DHKEMP256_AES128GCM_SHA256_P256
        | Ciphersuite::MLS_128_DHKEMX25519_CHACHA20POLY1305_SHA256_Ed25519
        | Ciphersuite::MLS_256_XWING_CHACHA20POLY1305_SHA256_Ed25519 => Ok(HashAlgorithm::Sha256),
        Ciphersuite::MLS_256_DHKEMP384_AES256GCM_SHA384_P384 => Ok(HashAlgorithm::Sha384),
        Ciphersuite::MLS_256_DHKEMX448_AES256GCM_SHA512_Ed448
        | Ciphersuite::MLS_256_DHKEMP521_AES256GCM_SHA512_P521
        | Ciphersuite::MLS_256_DHKEMX448_CHACHA20POLY1305_SHA512_Ed448 => Ok(HashAlgorithm::Sha512),
        Ciphersuite::Custom(_) => Err(CryptoError::UnsupportedCiphersuite),
    }
}

/// The AEAD of a ciphersuite.
fn aead_alg(ciphersuite: Ciphersuite) -> (r: Result<AeadId, CryptoError>)
    ensures
        r == or_unsupported(suite_aead(ciphersuite)),
{
    match ciphersuite {
        Ciphersuite::MLS_128_DHKEMX25519_CHACHA20POLY1305_SHA256_Ed25519
        | Ciphersuite::MLS_256_DHKEMX448_CHACHA20POLY1305_SHA512_Ed448
        | Ciphersuite::MLS_256_XWING_CHACHA20POLY1305_SHA256_Ed25519 => Ok(
            AeadId::ChaCha20Poly1305,
        ),
        Ciphersuite::MLS_128_DHKEMX25519_AES128GCM_SHA256_Ed25519
        | Ciphersuite::MLS_128_DHKEMP256_AES128GCM_SHA256_P256 => Ok(AeadId::Aes128Gcm),
        Ciphersuite::MLS_256_DHKEMX448_AES256GCM_SHA512_Ed448
        | Ciphersuite::MLS_256_DHKEMP521_AES256GCM_SHA512_P521
        | Ciphersuite::MLS_256_DHKEMP384_AES256GCM_SHA384_P384 => Ok(AeadId::Aes256Gcm),
        Ciphersuite::Custom(_) => Err(CryptoError::UnsupportedCiphersuite),
    }
}

/// An HPKE seal failure as `hpke_seal` reports it.
pub open spec fn libcrux_hpke_seal_error(f: HpkeFailure) -> CryptoError {
    match f {
        HpkeFailure::InvalidConfig => CryptoError::SenderSetupError,
        _ => CryptoError::HpkeEncryptionError,
    }
}

/// What `hpke_seal` gives for an outcome of the HPKE seal call: the KEM
/// output and the ciphertext as they came, or the failure as
/// `libcrux_hpke_seal_error` reports it.
pub fn libcrux_seal_outcome(sealed: Result<(Vec<u8>, Vec<u8>), HpkeFailure>) -> (r: Result<
    HpkeCiphertext,
    CryptoError,
>)
    ensures
        match sealed {
            Ok(out) => r matches Ok(c) && c.kem_output@ == out.0@ && c.ciphertext@ == out.1@,
            Err(f) => r == Err::<HpkeCiphertext, CryptoError>(libcrux_hpke_seal_error(f)),
        },
{
    match sealed {
        Ok((kem_output, ciphertext)) => Ok(HpkeCiphertext { kem_output, ciphertext }),
        Err(HpkeFailure::InvalidConfig) => Err(CryptoError::SenderSetupError),
        Err(_) => Err(CryptoError::HpkeEncryptionError),
    }
}

/// What `hpke_setup_sender_and_export` gives for an outcome of the sender
/// setup and export calls: the KEM output and the secret as they came,
/// `ExporterError` where the export failed and `SenderSetupError` where
/// anything before it did.
pub fn libcrux_sender_export_outcome(
    exported: Result<(Vec<u8>, Vec<u8>), HpkeStageFailure>,
) -> (r: Result<(KemOutput, ExporterSecret), CryptoError>)
    ensures
        match exported {
            Ok(out) => r matches Ok(o) && o.0@ == out.0@ && o.1@ == out.1@,
            Err(HpkeStageFailure::Export) => r == Err::<(Vec<u8>, ExporterSecret), CryptoError>(
                CryptoError::ExporterError,
            ),
            Err(_) => r == Err::<(Vec<u8>, ExporterSecret), CryptoError>(
                CryptoError::SenderSetupError,
            ),
        },
{
    match exported {
        Ok((enc, secret)) => Ok((enc, ExporterSecret::from(secret))),
        Err(HpkeStageFailure::Export) => Err(CryptoError::ExporterError),
        Err(_) => Err(CryptoError::SenderSetupError),
    }
}

impl CryptoProvider {
    /// A provider with a fresh generator seeded from the operating system;
    /// `InsufficientRandomness` where the operating system yields none.
    pub fn new() -> (r: Result<Self, CryptoError>)
        ensures
            r is Err ==> r == Err::<Self, CryptoError>(CryptoError::InsufficientRandomness),
    {
        match chacha_try_from_system() {
            Some(rng) => Ok(Self { rng: mutex_new(rng) }),
            None => Err(CryptoError::InsufficientRandomness),
        }
    }

    /// Whether this provider supports `ciphersuite`: exactly the two X25519
    /// suites with AES-128-GCM and ChaCha20-Poly1305 and the X-Wing suite.
    pub fn supports(&self, ciphersuite: Ciphersuite) -> (r: Result<(), CryptoError>)
        ensures
            r is Ok <==> libcrux_supports(ciphersuite),
            r is Err ==> r == Err::<(), CryptoError>(CryptoError::UnsupportedCiphersuite),
    {
        match ciphersuite {
            Ciphersuite::MLS_128_DHKEMX25519_AES128GCM_SHA256_Ed25519
            | Ciphersuite::MLS_128_DHKEMX25519_CHACHA20POLY1305_SHA256_Ed25519
            | Ciphersuite::MLS_256_XWING_CHACHA20POLY1305_SHA256_Ed25519 => Ok(()),
            _ => Err(CryptoError::UnsupportedCiphersuite),
        }
    }

    /// The ciphersuites this provider supports.
    pub fn supported_ciphersuites(&self) -> (v: Vec<Ciphersuite>)
        ensures
            v@ == libcrux_supported_list(),
    {
        vec![
            Ciphersuite::MLS_128_DHKEMX25519_AES128GCM_SHA256_Ed25519,
            Ciphersuite::MLS_128_DHKEMX25519_CHACHA20POLY1305_SHA256_Ed25519,
            Ciphersuite::MLS_256_XWING_CHACHA20POLY1305_SHA256_Ed25519,
        ]
    }

    /// HKDF-Extract with the hash function of `ciphersuite`. A salt or
    /// input keying material longer than `u32::MAX` bytes gives
    /// `InvalidLength`.
    pub fn hkdf_extract(&self, ciphersuite: Ciphersuite, salt: &[u8], ikm: &[u8]) -> (r: Result<
        Vec<u8>,
        CryptoError,
    >)
        ensures
            bytes_of(r) == libcrux_extract_result(ciphersuite, salt@, ikm@),
            r matches Ok(prk) ==> prk@.len() == digest_length(suite_hash(ciphersuite).unwrap()),
            r matches Ok(prk) ==> prk@.len() == spec_hash_length(ciphersuite),
            r matches Ok(prk) ==> prk@ == libcrux_hmac_tag(suite_hash(ciphersuite).unwrap(), salt@, ikm@),
    {
        let alg = hkdf_alg(ciphersuite)?;
        let mut prk = vec![0u8; digest_len(alg)];
        match hkdf_extract_into(alg, &mut prk, salt, ikm) {
            Ok(()) => Ok(prk),
            Err(HkdfExtractFailure::ArgumentTooLong) => Err(CryptoError::InvalidLength),
            Err(_) => Err(CryptoError::CryptoLibraryError),
        }
    }

    /// HMAC with the hash function of `ciphersuite`; the tag is as long as
    /// the hash. The key and the message must fit `u32` lengths (libcrux
    /// panics otherwise).
    pub fn hmac(&self, ciphersuite: Ciphersuite, key: &[u8], message: &[u8]) -> (r: Result<
        Vec<u8>,
        CryptoError,
    >)
        requires
            !(ciphersuite is Custom) ==> fits_u32(key@.len()) && fits_u32(message@.len()),
        ensures
            match suite_hash(ciphersuite) {
                None => r == Err::<Vec<u8>, CryptoError>(CryptoError::UnsupportedCiphersuite),
                Some(h) => r matches Ok(tag) && tag@ == libcrux_hmac_tag(h, key@, message@)
                    && tag@.len() == digest_length(h),
            },
            r matches Ok(tag) ==> tag@.len() == spec_hash_length(ciphersuite),
            r matches Ok(tag) ==> tag@ == rustcrypto_hmac_tag(suite_hash(ciphersuite).unwrap(), key@, message@),
    {
        let alg = hash_alg(ciphersuite)?;
        let mut tag = vec![0u8; digest_len(alg)];
        hmac_into(alg, key, message, &mut tag);
        Ok(tag)
    }

    /// HKDF-Expand with the hash function of `ciphersuite` to `okm_len`
    /// bytes. A pseudorandom key shorter than the digest or an `info`
    /// longer than `u32::MAX` bytes gives `InvalidLength`; more than 255
    /// digests of output gives `HkdfOutputLengthInvalid`.
    pub fn hkdf_expand(
        &self,
        ciphersuite: Ciphersuite,
        prk: &[u8],
        info: &[u8],
        okm_len: usize,
    ) -> (r: Result<Vec<u8>, CryptoError>)
        ensures
            bytes_of(r) == libcrux_expand_result(ciphersuite, prk@, info@, okm_len as nat),
            r matches Ok(okm) ==> okm@.len() == okm_len,
            r matches Ok(okm) ==> forall|m: nat|
                m <= okm_len ==> #[trigger] libcrux_hkdf_okm(suite_hash(ciphersuite).unwrap(), prk@, info@, m)
                    == okm@.take(m as int),
            r matches Ok(okm) ==> (prk@.len() == digest_length(suite_hash(ciphersuite).unwrap())
                ==> okm@ == rustcrypto_expand(suite_hash(ciphersuite).unwrap(), prk@, info@, okm_len as nat)),
    {
        let alg = hkdf_alg(ciphersuite)?;
        let mut okm = vec![0u8; okm_len];
        match hkdf_expand_into(alg, &mut okm, prk, info) {
            Ok(()) => Ok(okm),
            Err(HkdfExpandFailure::OutputTooLong) => Err(CryptoError::HkdfOutputLengthInvalid),
            Err(HkdfExpandFailure::ArgumentTooLong) => Err(CryptoError::InvalidLength),
            Err(HkdfExpandFailure::PrkTooShort) => Err(CryptoError::InvalidLength),
            Err(HkdfExpandFailure::Unknown) => Err(CryptoError::CryptoLibraryError),
        }
    }

    /// The digest of `data` with the hash function of `ciphersuite`. The
    /// data must fit a `u32` length (libcrux panics otherwise).
    pub fn hash(&self, ciphersuite: Ciphersuite, data: &[u8]) -> (r: Result<Vec<u8>, CryptoError>)
        requires
            !(ciphersuite is Custom) ==> fits_u32(data@.len()),
        ensures
            match suite_hash(ciphersuite) {
                None => r == Err::<Vec<u8>, CryptoError>(CryptoError::UnsupportedCiphersuite),
                Some(h) => r matches Ok(d) && d@ == libcrux_digest(h, data@) && d@.len()
                    == digest_length(h),
            },
            r matches Ok(d) ==> d@.len() == spec_hash_length(ciphersuite),
            r matches Ok(d) ==> d@ == rustcrypto_digest(suite_hash(ciphersuite).unwrap(), data@),
    {
        let out = match ciphersuite {
            Ciphersuite::MLS_128_DHKEMX25519_AES128GCM_SHA256_Ed25519
            | Ciphersuite::MLS_128_DHKEMP256_AES128GCM_SHA256_P256
            | Ciphersuite::MLS_128_DHKEMX25519_CHACHA20POLY1305_SHA256_Ed25519
            | Ciphersuite::MLS_256_XWING_CHACHA20POLY1305_SHA256_Ed25519 => sha256_digest(data),
            Ciphersuite::MLS_256_DHKEMP384_AES256GCM_SHA384_P384 => sha384_digest(data),
            Ciphersuite::MLS_256_DHKEMX448_AES256GCM_SHA512_Ed448
            | Ciphersuite::MLS_256_DHKEMP521_AES256GCM_SHA512_P521
            | Ciphersuite::MLS_256_DHKEMX448_CHACHA20POLY1305_SHA512_Ed448 => sha512_digest(data),
            Ciphersuite::Custom(_) => return Err(CryptoError::UnsupportedCiphersuite),
        };
        Ok(out)
    }

    /// AEAD encryption with the AEAD of `ciphersuite`: the ciphertext with
    /// the 16-byte tag appended. A nonce or key of the wrong length gives
    /// `InvalidLength`, a refusal of the encryption call
    /// `CryptoLibraryError`.
    pub fn aead_encrypt(
        &self,
        ciphersuite: Ciphersuite,
        key: &[u8],
        data: &[u8],
        nonce: &[u8],
        aad: &[u8],
    ) -> (r: Result<Vec<u8>, CryptoError>)
        requires
            data@.len() + 16 <= usize::MAX,
        ensures
            bytes_of(r) == libcrux_aead_encrypt_result(ciphersuite, key@, nonce@, aad@, data@),
            r matches Ok(c) ==> c@.len() == data@.len() + 16,
            r matches Ok(c) ==> key@.len() == spec_aead_key_length(ciphersuite) && nonce@.len()
                == spec_aead_nonce_length() && c@.len() == data@.len() + spec_mac_length(),
            suite_aead(ciphersuite) matches Some(a) && nonce@.len() == 12 && key@.len() == aead_key_len(a)
                && libcrux_aead_lengths_ok(a, aad@.len(), data@.len()) ==> r is Ok,
            r matches Ok(c) ==> c@ == rustcrypto_seal(suite_aead(ciphersuite).unwrap(), key@, nonce@, aad@, data@),
    {
        let alg = aead_alg(ciphersuite)?;
        let mut msg_ctxt = vec![0u8; data.len() + 16];
        match aead_encrypt_into(alg, key, nonce, aad, data, &mut msg_ctxt) {
            Ok(()) => Ok(msg_ctxt),
            Err(AeadCallFailure::NonceLength) => Err(CryptoError::InvalidLength),
            Err(AeadCallFailure::KeyLength) => Err(CryptoError::InvalidLength),
            Err(AeadCallFailure::TagLength) => Err(CryptoError::InvalidLength),
            Err(_) => Err(CryptoError::CryptoLibraryError),
        }
    }

    /// AEAD decryption with the AEAD of `ciphersuite`; `ct_tag` is the
    /// ciphertext with its 16-byte tag appended. Input shorter than a tag,
    /// or a nonce or key of the wrong length, gives `InvalidLength`; a tag
    /// that does not authenticate gives `AeadDecryptionError`. Decryption
    /// gives back every message that `aead_encrypt` produced `ct_tag` from
    /// under the same suite, key, nonce and associated data.
    pub fn aead_decrypt(
        &self,
        ciphersuite: Ciphersuite,
        key: &[u8],
        ct_tag: &[u8],
        nonce: &[u8],
        aad: &[u8],
    ) -> (r: Result<Vec<u8>, CryptoError>)
        ensures
            bytes_of(r) == libcrux_aead_decrypt_result(ciphersuite, key@, nonce@, aad@, ct_tag@),
            forall|m: Seq<u8>|
                #[trigger] libcrux_aead_encrypt_result(ciphersuite, key@, nonce@, aad@, m)
                    == Ok::<Seq<u8>, CryptoError>(ct_tag@) && ct_tag@.len() == m.len() + 16
                    ==> bytes_of(r) == Ok::<Seq<u8>, CryptoError>(m),
            r matches Ok(m) ==> m@.len() + 16 == ct_tag@.len(),
            forall|m: Seq<u8>|
                suite_aead(ciphersuite) is Some && nonce@.len() == 12 && key@.len() == aead_key_len(
                    suite_aead(ciphersuite).unwrap(),
                ) && libcrux_aead_lengths_ok(suite_aead(ciphersuite).unwrap(), aad@.len(), m.len())
                    && ct_tag@.len() == m.len() + 16 && ct_tag@ == #[trigger] rustcrypto_seal(
                    suite_aead(ciphersuite).unwrap(),
                    key@,
                    nonce@,
                    aad@,
                    m,
                ) ==> bytes_of(r) == Ok::<Seq<u8>, CryptoError>(m),
    {
        let alg = aead_alg(ciphersuite)?;
        if ct_tag.len() < 16 {
            return Err(CryptoError::InvalidLength);
        }
        let boundary = ct_tag.len() - 16;
        let mut ptext = vec![0u8; boundary];
        let ctext = vstd::slice::slice_subrange(ct_tag, 0, boundary);
        let tag = vstd::slice::slice_subrange(ct_tag, boundary, ct_tag.len());
        proof {
            assert(ctext@ == ct_tag@.take(boundary as int));
            assert(tag@ == ct_tag@.skip(boundary as int));
            assert(ctext@ + tag@ =~= ct_tag@);
        }
        match aead_decrypt_into(alg, key, nonce, aad, ctext, tag, &mut ptext) {
            Ok(()) => Ok(ptext),
            Err(AeadCallFailure::InvalidTag) => Err(CryptoError::AeadDecryptionError),
            Err(AeadCallFailure::AadTooLong) => Err(CryptoError::InvalidLength),
            Err(AeadCallFailure::NonceLength) => Err(CryptoError::InvalidLength),
            Err(AeadCallFailure::KeyLength) => Err(CryptoError::InvalidLength),
            Err(AeadCallFailure::TagLength) => Err(CryptoError::InvalidLength),
            Err(AeadCallFailure::Rejected) => Err(CryptoError::CryptoLibraryError),
        }
    }

    /// A fresh Ed25519 key pair (signing key, verification key), 32 bytes
    /// each. Other schemes give `UnsupportedSignatureScheme`, a poisoned
    /// generator lock `CryptoLibraryError`, a failed generation
    /// `SigningError`.
    pub fn signature_key_gen(&self, alg: SignatureScheme) -> (r: Result<
        (Vec<u8>, Vec<u8>),
        CryptoError,
    >)
        ensures
            (r == Err::<(Vec<u8>, Vec<u8>), CryptoError>(CryptoError::UnsupportedSignatureScheme))
                <==> alg != SignatureScheme::ED25519,
            r is Err ==> (r == Err::<(Vec<u8>, Vec<u8>), CryptoError>(CryptoError::UnsupportedSignatureScheme)
                || r == Err::<(Vec<u8>, Vec<u8>), CryptoError>(CryptoError::CryptoLibraryError)
                || r == Err::<(Vec<u8>, Vec<u8>), CryptoError>(CryptoError::SigningError)),
            r matches Ok(k) ==> k.0@.len() == 32 && k.1@.len() == 32,
            r matches Ok(k) ==> k.1@ == libcrux_ed25519_public_key(k.0@),
    {
        if alg != SignatureScheme::ED25519 {
            return Err(CryptoError::UnsupportedSignatureScheme);
        }
        match mutex_lock(&self.rng) {
            None => Err(CryptoError::CryptoLibraryError),
            Some(mut guard) => match ed25519_generate(&mut guard) {
                Ok(keys) => Ok(keys),
                Err(_) => Err(CryptoError::SigningError),
            },
        }
    }

    /// Verifies an Ed25519 `signature` on `data` under `pk`. Other schemes
    /// give `UnsupportedSignatureScheme`; a key that is not 32 bytes or a
    /// signature that is not 64 bytes gives `InvalidLength`; a message
    /// longer than `u32::MAX` bytes `SigningError`; a signature that does not
    /// verify `InvalidSignature`.
    pub fn verify_signature(
        &self,
        alg: SignatureScheme,
        data: &[u8],
        pk: &[u8],
        signature: &[u8],
    ) -> (r: Result<(), CryptoError>)
        ensures
            r == libcrux_verify_result(alg, data@, pk@, signature@),
            forall|sk: Seq<u8>|
                pk@.len() == 32 && signature@.len() == 64 && pk@ == libcrux_ed25519_public_key(sk)
                    && #[trigger] libcrux_sign_result(alg, data@, sk) == Ok::<Seq<u8>, CryptoError>(
                    signature@,
                ) ==> r is Ok,
            r is Ok ==> alg == SignatureScheme::ED25519 && pk@.len() == 32 && signature@.len() == 64
                && libcrux_ed25519_accepts(pk@, data@, signature@),
    {
        if alg != SignatureScheme::ED25519 {
            return Err(CryptoError::UnsupportedSignatureScheme);
        }
        if pk.len() != 32 || signature.len() != 64 {
            return Err(CryptoError::InvalidLength);
        }
        match ed25519_verify(data, pk, signature) {
            Ok(()) => Ok(()),
            Err(SignatureFailure::Rejected) => Err(CryptoError::InvalidSignature),
            Err(_) => Err(CryptoError::SigningError),
        }
    }

    /// Signs `data` with the 32-byte Ed25519 `key`. Other schemes give
    /// `UnsupportedSignatureScheme`, a key of another length
    /// `InvalidLength`, a message longer than `u32::MAX` bytes
    /// `SigningError`.
    pub fn sign(&self, alg: SignatureScheme, data: &[u8], key: &[u8]) -> (r: Result<
        Vec<u8>,
        CryptoError,
    >)
        ensures
            bytes_of(r) == libcrux_sign_result(alg, data@, key@),
            r matches Ok(s) ==> s@.len() == 64,
    {
        if alg != SignatureScheme::ED25519 {
            return Err(CryptoError::UnsupportedSignatureScheme);
        }
        if key.len() != 32 {
            return Err(CryptoError::InvalidLength);
        }
        match ed25519_sign(data, key) {
            Ok(s) => Ok(s),
            Err(_) => Err(CryptoError::SigningError),
        }
    }

    /// Single-shot HPKE encryption in base mode to `pk_r`. A configuration
    /// that does not fit gives `SenderSetupError`, any other HPKE failure
    /// `HpkeEncryptionError`. The ciphertext carries the 16-byte AEAD tag.
    /// Opening the result with the private key of a pair that
    /// `derive_hpke_keypair` gives for `pk_r` yields `ptxt` (see `hpke_open`).
    pub fn hpke_seal(
        &self,
        ciphersuite: Ciphersuite,
        pk_r: &[u8],
        info: &[u8],
        aad: &[u8],
        ptxt: &[u8],
    ) -> (r: Result<HpkeCiphertext, CryptoError>)
        ensures
            libcrux_hpke_suite(ciphersuite) is None ==> r == Err::<HpkeCiphertext, CryptoError>(
                CryptoError::UnsupportedCiphersuite,
            ),
            r is Err ==> (r == Err::<HpkeCiphertext, CryptoError>(CryptoError::UnsupportedCiphersuite)
                || r == Err::<HpkeCiphertext, CryptoError>(CryptoError::SenderSetupError) || r == Err::<
                HpkeCiphertext,
                CryptoError,
            >(CryptoError::HpkeEncryptionError)),
            r matches Ok(c) ==> c.ciphertext@.len() == ptxt@.len() + 16,
            (r == Err::<HpkeCiphertext, CryptoError>(CryptoError::UnsupportedCiphersuite)) <==> libcrux_hpke_suite(
                ciphersuite,
            ) is None,
            r matches Ok(c) ==> (libcrux_hpke_suite(ciphersuite) matches Some(s)
                && dh_kem_key_lengths(s.kem) matches Some(l) ==> c.kem_output@.len() == l.1),
            (r matches Ok(c) ==> suite_kem(ciphersuite) != Some(KemId::XWingDraft06) ==> forall|ikm: Seq<u8>, sk: Seq<u8>|
                #![trigger libcrux_derive_result(ciphersuite, ikm), libcrux_hpke_open_result(ciphersuite, c.kem_output@, sk, info@, aad@, c.ciphertext@)]
                libcrux_derive_result(ciphersuite, ikm) == Ok::<(Seq<u8>, Seq<u8>), CryptoError>(
                    (sk, pk_r@),
                ) ==> libcrux_hpke_open_result(
                    ciphersuite,
                    c.kem_output@,
                    sk,
                    info@,
                    aad@,
                    c.ciphertext@,
                ) == Ok::<Seq<u8>, CryptoError>(ptxt@)),
            r matches Ok(c) ==> (suite_kem(ciphersuite) matches Some(k) && dh_kem_key_lengths(k) matches Some(
                l,
            ) ==> c.kem_output@.len() == l.1),
    {
        let suite = hpke_config(ciphersuite)?;
        let sealed = libcrux_hpke_seal(suite, pk_r, info, aad, ptxt);
        let ghost raw = sealed;
        let r = libcrux_seal_outcome(sealed);
        proof {
            if r is Ok && suite_kem(ciphersuite) != Some(KemId::XWingDraft06) {
                let c = r->Ok_0;
                assert forall|ikm: Seq<u8>, sk: Seq<u8>|
                    #![trigger libcrux_derive_result(ciphersuite, ikm), libcrux_hpke_open_result(ciphersuite, c.kem_output@, sk, info@, aad@, c.ciphertext@)]
                    libcrux_derive_result(ciphersuite, ikm) == Ok::<(Seq<u8>, Seq<u8>), CryptoError>(
                        (sk, pk_r@),
                    ) implies libcrux_hpke_open_result(
                        ciphersuite,
                        c.kem_output@,
                        sk,
                        info@,
                        aad@,
                        c.ciphertext@,
                    ) == Ok::<Seq<u8>, CryptoError>(ptxt@) by {
                    let out = raw->Ok_0;
                    assert(libcrux_hpke_derived_key_pair(suite, ikm) == Ok::<(Seq<u8>, Seq<u8>), HpkeFailure>((sk, pk_r@)));
                    assert(libcrux_hpke_opened(suite, out.0@, sk, info@, aad@, out.1@) == Ok::<Seq<u8>, HpkeFailure>(ptxt@));
                }
            }
        }
        r
    }

    /// Single-shot HPKE decryption in base mode with the private key `sk_r`.
    /// A configuration that does not fit gives `ReceiverSetupError`, any
    /// other HPKE failure `HpkeDecryptionError`.
    pub fn hpke_open(
        &self,
        ciphersuite: Ciphersuite,
        input: &HpkeCiphertext,
        sk_r: &[u8],
        info: &[u8],
        aad: &[u8],
    ) -> (r: Result<Vec<u8>, CryptoError>)
        ensures
            bytes_of(r) == libcrux_hpke_open_result(
                ciphersuite,
                input.kem_output@,
                sk_r@,
                info@,
                aad@,
                input.ciphertext@,
            ) || (libcrux_hpke_suite(ciphersuite) is Some && r == Err::<Vec<u8>, CryptoError>(
                CryptoError::HpkeDecryptionError,
            )),
    {
        let suite = hpke_config(ciphersuite)?;
        match libcrux_hpke_open(
            suite,
            input.kem_output.as_slice(),
            sk_r,
            info,
            aad,
            input.ciphertext.as_slice(),
        ) {
            Ok(p) => Ok(p),
            Err(HpkeFailure::InvalidConfig) => Err(CryptoError::ReceiverSetupError),
            Err(_) => Err(CryptoError::HpkeDecryptionError),
        }
    }

    /// Sets up an HPKE sender to `pk_r` in base mode and exports a secret
    /// of `exporter_length` bytes; gives the KEM output and the secret. A
    /// failed setup gives `SenderSetupError`, a failed export
    /// `ExporterError`. A receiver set up from the KEM output with the
    /// private key of a pair that `derive_hpke_keypair` gives for `pk_r`
    /// exports the same secret (see `hpke_setup_receiver_and_export`).
    pub fn hpke_setup_sender_and_export(
        &self,
        ciphersuite: Ciphersuite,
        pk_r: &[u8],
        info: &[u8],
        exporter_context: &[u8],
        exporter_length: usize,
    ) -> (r: Result<(KemOutput, ExporterSecret), CryptoError>)
        ensures
            libcrux_hpke_suite(ciphersuite) is None ==> r == Err::<
                (Vec<u8>, ExporterSecret),
                CryptoError,
            >(CryptoError::UnsupportedCiphersuite),
            r is Err ==> (r == Err::<(Vec<u8>, ExporterSecret), CryptoError>(
                CryptoError::UnsupportedCiphersuite,
            ) || r == Err::<(Vec<u8>, ExporterSecret), CryptoError>(CryptoError::SenderSetupError)
                || r == Err::<(Vec<u8>, ExporterSecret), CryptoError>(CryptoError::ExporterError)),
            r matches Ok(out) ==> out.1@.len() == exporter_length,
            (r == Err::<(Vec<u8>, ExporterSecret), CryptoError>(CryptoError::UnsupportedCiphersuite)) <==> libcrux_hpke_suite(
                ciphersuite,
            ) is None,
            r matches Ok(out) ==> (libcrux_hpke_suite(ciphersuite) matches Some(s)
                && dh_kem_key_lengths(s.kem) matches Some(l) ==> out.0@.len() == l.1),
            (r matches Ok(out) ==> suite_kem(ciphersuite) != Some(KemId::XWingDraft06) ==> forall|ikm: Seq<u8>, sk: Seq<u8>|
                #![trigger libcrux_derive_result(ciphersuite, ikm), libcrux_receiver_export_result(ciphersuite, out.0@, sk, info@, exporter_context@, exporter_length as nat)]
                libcrux_derive_result(ciphersuite, ikm) == Ok::<(Seq<u8>, Seq<u8>), CryptoError>(
                    (sk, pk_r@),
                ) ==> libcrux_receiver_export_result(
                    ciphersuite,
                    out.0@,
                    sk,
                    info@,
                    exporter_context@,
                    exporter_length as nat,
                ) == Ok::<Seq<u8>, CryptoError>(out.1@)),
            r matches Ok(out) ==> (suite_kem(ciphersuite) matches Some(k) && dh_kem_key_lengths(k) matches Some(
                l,
            ) ==> out.0@.len() == l.1),
    {
        let suite = hpke_config(ciphersuite)?;
        let exported = libcrux_hpke_sender_export(suite, pk_r, info, exporter_context, exporter_length);
        let ghost raw = exported;
        let r = libcrux_sender_export_outcome(exported);
        proof {
            if r is Ok && suite_kem(ciphersuite) != Some(KemId::XWingDraft06) {
                let out = r->Ok_0;
                assert forall|ikm: Seq<u8>, sk: Seq<u8>|
                    #![trigger libcrux_derive_result(ciphersuite, ikm), libcrux_receiver_export_result(ciphersuite, out.0@, sk, info@, exporter_context@, exporter_length as nat)]
                    libcrux_derive_result(ciphersuite, ikm) == Ok::<(Seq<u8>, Seq<u8>), CryptoError>(
                        (sk, pk_r@),
                    ) implies libcrux_receiver_export_result(
                        ciphersuite,
                        out.0@,
                        sk,
                        info@,
                        exporter_context@,
                        exporter_length as nat,
                    ) == Ok::<Seq<u8>, CryptoError>(out.1@) by {
                    let pair = raw->Ok_0;
                    assert(libcrux_hpke_derived_key_pair(suite, ikm) == Ok::<(Seq<u8>, Seq<u8>), HpkeFailure>((sk, pk_r@)));
                    assert(libcrux_hpke_receiver_secret(suite, pair.0@, sk, info@, exporter_context@, exporter_length as nat) == Ok::<Seq<u8>, HpkeStageFailure>(pair.1@));
                }
            }
        }
        r
    }

    /// Sets up an HPKE receiver in base mode from the KEM output `enc` and
    /// exports a secret of `exporter_length` bytes. A failed setup gives
    /// `ReceiverSetupError`, a failed export `ExporterError`.
    pub fn hpke_setup_receiver_and_export(
        &self,
        ciphersuite: Ciphersuite,
        enc: &[u8],
        sk_r: &[u8],
        info: &[u8],
        exporter_context: &[u8],
        exporter_length: usize,
    ) -> (r: Result<ExporterSecret, CryptoError>)
        ensures
            secret_of(r) == libcrux_receiver_export_result(
                ciphersuite,
                enc@,
                sk_r@,
                info@,
                exporter_context@,
                exporter_length as nat,
            ) || (libcrux_hpke_suite(ciphersuite) is Some && r == Err::<ExporterSecret, CryptoError>(
                CryptoError::ReceiverSetupError,
            )),
            r matches Ok(s) ==> s@.len() == exporter_length,
    {
        let suite = hpke_config(ciphersuite)?;
        match libcrux_hpke_receiver_export(suite, enc, sk_r, info, exporter_context, exporter_length) {
            Ok(secret) => Ok(ExporterSecret::from(secret)),
            Err(HpkeStageFailure::Export) => Err(CryptoError::ExporterError),
            Err(_) => Err(CryptoError::ReceiverSetupError),
        }
    }

    /// Derives an HPKE key pair from `ikm` with the KEM of `ciphersuite`. A
    /// configuration that does not fit gives `InvalidLength`, any other
    /// failure `CryptoLibraryError`.
    pub fn derive_hpke_keypair(&self, ciphersuite: Ciphersuite, ikm: &[u8]) -> (r: Result<
        HpkeKeyPair,
        CryptoError,
    >)
        ensures
            keypair_of(r) == libcrux_derive_result(ciphersuite, ikm@) || (libcrux_hpke_suite(
                ciphersuite,
            ) is Some && r == Err::<HpkeKeyPair, CryptoError>(CryptoError::CryptoLibraryError)),
            r matches Ok(kp) ==> (libcrux_hpke_suite(ciphersuite) matches Some(s)
                && dh_kem_key_lengths(s.kem) matches Some(l) ==> kp.private@.len() == l.0
                && kp.public@.len() == l.1),
            r matches Ok(kp) ==> (suite_kem(ciphersuite) matches Some(k) && dh_kem_key_lengths(k) matches Some(
                l,
            ) ==> kp.private@.len() == l.0 && kp.public@.len() == l.1),
    {
        let suite = hpke_config(ciphersuite)?;
        match libcrux_hpke_derive_key_pair(suite, ikm) {
            Ok((private, public)) => Ok(HpkeKeyPair { private: HpkePrivateKey::from(private), public }),
            Err(HpkeFailure::InvalidConfig) => Err(CryptoError::InvalidLength),
            Err(_) => Err(CryptoError::CryptoLibraryError),
        }
    }
}

} // verus!
