//! The crypto provider built on the RustCrypto crates and on `hpke-rs` with
//! its RustCrypto backend.
use vstd::prelude::*;
use crate::algorithms::{
    AeadCallFailure, AeadId, HashAlgorithm, HpkeFailure, HpkeStageFailure, HpkeSuite, KdfId,
    KemId, SignatureFailure, aead_key_len, bytes_of, dh_kem_key_lengths, digest_length,
    suite_aead, suite_hash, suite_kdf, suite_kem,
};
use crate::hpke_calls::{
    rustcrypto_hpke_derive_key_pair, rustcrypto_hpke_derived_key_pair, rustcrypto_hpke_open,
    rustcrypto_hpke_opened, rustcrypto_hpke_receiver_export, rustcrypto_hpke_receiver_secret,
    rustcrypto_hpke_seal, rustcrypto_hpke_sender_export,
};
use crate::rng::{
    chacha_try_from_system, fill_from_guard, rwlock_new, rwlock_write,
};
use crate::rustcrypto_calls::{
    aes128gcm_open, aes128gcm_seal, aes256gcm_open, aes256gcm_seal, aes_gcm_lengths_ok,
    chacha20poly1305_open, chacha20poly1305_seal, chacha_lengths_ok, ed25519_generate,
    ed25519_sign, ed25519_verify, hkdf_sha256_expand, hkdf_sha256_extract, hkdf_sha384_expand,
    hkdf_sha384_extract, hkdf_sha512_expand, hkdf_sha512_extract, p256_generate, p256_sign,
    p256_verify, rustcrypto_aes128gcm_open, rustcrypto_aes128gcm_seal, rustcrypto_aes256gcm_open,
    rustcrypto_aes256gcm_seal, rustcrypto_chacha20poly1305_open, rustcrypto_chacha20poly1305_seal,
    rustcrypto_ed25519_public_key,
    rustcrypto_ed25519_sign, rustcrypto_ed25519_verify, rustcrypto_hkdf_sha256_expand,
    rustcrypto_hkdf_sha256_extract, rustcrypto_hkdf_sha384_expand, rustcrypto_hkdf_sha384_extract,
    rustcrypto_hkdf_sha512_expand, rustcrypto_hkdf_sha512_extract, rustcrypto_p256_public_key,
    rustcrypto_p256_sign,
    rustcrypto_p256_verify, rustcrypto_sha256, rustcrypto_sha384, rustcrypto_sha512, sha256_digest,
    sha384_digest, sha512_digest, ed25519_identity_encoding, is_der_ecdsa_p256_outline,
};
use crate::rustcrypto_hmac::rustcrypto_hmac_tag;
use crate::types::{
    spec_aead_key_length, spec_aead_nonce_length, spec_hash_length, spec_mac_length,
    Ciphersuite, CryptoError, ExporterSecret, HpkeCiphertext, HpkeKeyPair, HpkePrivateKey,
    SignatureScheme,
};

verus! {

/// The provider: the RustCrypto primitives and a ChaCha20 generator, seeded
/// from the operating system, behind a lock. Where the operating system
/// gave no randomness there is no generator, and the operations that need
/// one report it. Nothing in this library panics while it holds the lock,
/// so the lock is poisoned only by a panic elsewhere in a caller's thread.
#[derive(Debug)]
pub struct RustCrypto {
    rng: Option<std::sync::RwLock<rand_chacha::ChaCha20Rng>>,
}

impl RustCrypto {
    /// Whether the provider holds a seeded generator.
    pub closed spec fn is_seeded(&self) -> bool {
        self.rng is Some
    }
}

impl Default for RustCrypto {
    /// A provider with a generator seeded from the operating system, or
    /// without one where the operating system gives no randomness.
    fn default() -> Self {
        match chacha_try_from_system() {
            Some(rng) => RustCrypto { rng: Some(rwlock_new(rng)) },
            None => RustCrypto { rng: None },
        }
    }
}

/// Why drawing random bytes failed.
#[derive(Debug, Copy, Clone, PartialEq, Eq, Structural)]
pub enum RandError {
    /// The generator's lock is poisoned.
    LockPoisoned,
    /// The generator could not produce enough randomness.
    NotEnoughRandomness,
}

/// An optional algorithm as a result: `UnsupportedCiphersuite` where there
/// is none.
pub open spec fn or_unsupported<T>(o: Option<T>) -> Result<T, CryptoError> {
    match o {
        Some(t) => Ok(t),
        None => Err(CryptoError::UnsupportedCiphersuite),
    }
}

/// The ciphersuites that this provider supports.
pub open spec fn rustcrypto_supports(cs: Ciphersuite) -> bool {
    cs == Ciphersuite::MLS_128_DHKEMX25519_AES128GCM_SHA256_Ed25519 || cs
        == Ciphersuite::MLS_128_DHKEMX25519_CHACHA20POLY1305_SHA256_Ed25519 || cs
        == Ciphersuite::MLS_128_DHKEMP256_AES128GCM_SHA256_P256
}

/// The list of supported ciphersuites, in the order the provider gives it.
pub open spec fn rustcrypto_supported_list() -> Seq<Ciphersuite> {
    seq![
        Ciphersuite::MLS_128_DHKEMX25519_AES128GCM_SHA256_Ed25519,
        Ciphersuite::MLS_128_DHKEMX25519_CHACHA20POLY1305_SHA256_Ed25519,
        Ciphersuite::MLS_128_DHKEMP256_AES128GCM_SHA256_P256,
    ]
}

/// The HPKE KEM of a ciphersuite in this provider: X-Wing has none here.
pub open spec fn rustcrypto_kem(cs: Ciphersuite) -> Option<KemId> {
    match suite_kem(cs) {
        Some(KemId::XWingDraft06) => None,
        other => other,
    }
}

/// The HPKE configuration of a ciphersuite in this provider.
pub open spec fn rustcrypto_hpke_suite(cs: Ciphersuite) -> Option<HpkeSuite> {
    match (rustcrypto_kem(cs), suite_kdf(cs), suite_aead(cs)) {
        (Some(kem), Some(kdf), Some(aead)) => Some(HpkeSuite { kem, kdf, aead }),
        _ => None,
    }
}

/// The digest that the RustCrypto crates compute with a hash function.
pub open spec fn rustcrypto_digest(h: HashAlgorithm, data: Seq<u8>) -> Seq<u8> {
    match h {
        HashAlgorithm::Sha256 => rustcrypto_sha256(data),
        HashAlgorithm::Sha384 => rustcrypto_sha384(data),
        HashAlgorithm::Sha512 => rustcrypto_sha512(data),
    }
}

/// The HKDF-Extract output that the RustCrypto crates compute.
pub open spec fn rustcrypto_extract(h: HashAlgorithm, salt: Seq<u8>, ikm: Seq<u8>) -> Seq<u8> {
    match h {
        HashAlgorithm::Sha256 => rustcrypto_hkdf_sha256_extract(salt, ikm),
        HashAlgorithm::Sha384 => rustcrypto_hkdf_sha384_extract(salt, ikm),
        HashAlgorithm::Sha512 => rustcrypto_hkdf_sha512_extract(salt, ikm),
    }
}

/// The HKDF-Expand output that the RustCrypto crates compute.
pub open spec fn rustcrypto_expand(h: HashAlgorithm, prk: Seq<u8>, info: Seq<u8>, len: nat) -> Seq<
    u8,
> {
    match h {
        HashAlgorithm::Sha256 => rustcrypto_hkdf_sha256_expand(prk, info, len),
        HashAlgorithm::Sha384 => rustcrypto_hkdf_sha384_expand(prk, info, len),
        HashAlgorithm::Sha512 => rustcrypto_hkdf_sha512_expand(prk, info, len),
    }
}

/// The message and associated-data lengths that an AEAD of the RustCrypto
/// crates accepts.
pub open spec fn rustcrypto_aead_lengths_ok(a: AeadId, aad_len: nat, msg_len: nat) -> bool {
    match a {
        AeadId::ChaCha20Poly1305 => chacha_lengths_ok(aad_len, msg_len),
        _ => aes_gcm_lengths_ok(aad_len, msg_len),
    }
}

/// The ciphertext (tag appended) that an AEAD of the RustCrypto crates
/// computes.
pub open spec fn rustcrypto_seal(a: AeadId, key: Seq<u8>, nonce: Seq<u8>, aad: Seq<u8>, msg: Seq<
    u8,
>) -> Seq<u8> {
    match a {
        AeadId::Aes128Gcm => rustcrypto_aes128gcm_seal(key, nonce, aad, msg),
        AeadId::Aes256Gcm => rustcrypto_aes256gcm_seal(key, nonce, aad, msg),
        AeadId::ChaCha20Poly1305 => rustcrypto_chacha20poly1305_seal(key, nonce, aad, msg),
    }
}

/// The decryption that an AEAD of the RustCrypto crates computes.
pub open spec fn rustcrypto_open(a: AeadId, key: Seq<u8>, nonce: Seq<u8>, aad: Seq<u8>, ct: Seq<
    u8,
>) -> Option<Seq<u8>> {
    match a {
        AeadId::Aes128Gcm => rustcrypto_aes128gcm_open(key, nonce, aad, ct),
        AeadId::Aes256Gcm => rustcrypto_aes256gcm_open(key, nonce, aad, ct),
        AeadId::ChaCha20Poly1305 => rustcrypto_chacha20poly1305_open(key, nonce, aad, ct),
    }
}

/// What `aead_encrypt` returns.
pub open spec fn rustcrypto_aead_encrypt_result(
    cs: Ciphersuite,
    key: Seq<u8>,
    nonce: Seq<u8>,
    aad: Seq<u8>,
    data: Seq<u8>,
) -> Result<Seq<u8>, CryptoError> {
    match suite_aead(cs) {
        None => Err(CryptoError::UnsupportedCiphersuite),
        Some(a) => if key.len() == aead_key_len(a) && rustcrypto_aead_lengths_ok(
            a,
            aad.len(),
            data.len(),
        ) {
            Ok(rustcrypto_seal(a, key, nonce, aad, data))
        } else {
            Err(CryptoError::CryptoLibraryError)
        },
    }
}

/// What `aead_decrypt` returns.
pub open spec fn rustcrypto_aead_decrypt_result(
    cs: Ciphersuite,
    key: Seq<u8>,
    nonce: Seq<u8>,
    aad: Seq<u8>,
    ct_tag: Seq<u8>,
) -> Result<Seq<u8>, CryptoError> {
    match suite_aead(cs) {
        None => Err(CryptoError::UnsupportedCiphersuite),
        Some(a) => if key.len() != aead_key_len(a) {
            Err(CryptoError::CryptoLibraryError)
        } else {
            match rustcrypto_open(a, key, nonce, aad, ct_tag) {
                Some(m) => Ok(m),
                None => Err(CryptoError::AeadDecryptionError),
            }
        },
    }
}

/// The nonce length that the AEAD calls of a ciphersuite cannot do without:
/// where the suite names an AEAD and the key fits it, the nonce must be 12
/// bytes long (the RustCrypto nonce conversion panics otherwise).
pub open spec fn rustcrypto_nonce_fits(cs: Ciphersuite, key: Seq<u8>, nonce: Seq<u8>) -> bool {
    match suite_aead(cs) {
        Some(a) => key.len() == aead_key_len(a) ==> nonce.len() == 12,
        None => true,
    }
}

/// A signature-check outcome as the provider reports it.
pub open spec fn rustcrypto_verify_error(f: SignatureFailure) -> CryptoError {
    match f {
        SignatureFailure::InvalidKey => CryptoError::CryptoLibraryError,
        _ => CryptoError::InvalidSignature,
    }
}

/// What `verify_signature` returns.
pub open spec fn rustcrypto_verify_result(
    alg: SignatureScheme,
    data: Seq<u8>,
    pk: Seq<u8>,
    signature: Seq<u8>,
) -> Result<(), CryptoError> {
    match alg {
        SignatureScheme::ECDSA_SECP256R1_SHA256 => match rustcrypto_p256_verify(pk, data, signature) {
            Ok(()) => Ok(()),
            Err(f) => Err(rustcrypto_verify_error(f)),
        },
        SignatureScheme::ED25519 => if signature.len() != 64 {
            Err(CryptoError::CryptoLibraryError)
        } else {
            match rustcrypto_ed25519_verify(pk, data, signature) {
                Ok(()) => Ok(()),
                Err(f) => Err(rustcrypto_verify_error(f)),
            }
        },
        _ => Err(CryptoError::UnsupportedSignatureScheme),
    }
}

/// The public key that belongs to a private key of a signature scheme.
pub open spec fn rustcrypto_public_key(alg: SignatureScheme, sk: Seq<u8>) -> Seq<u8> {
    match alg {
        SignatureScheme::ECDSA_SECP256R1_SHA256 => rustcrypto_p256_public_key(sk),
        SignatureScheme::ED25519 => rustcrypto_ed25519_public_key(sk),
        _ => Seq::empty(),
    }
}

/// What `sign` returns.
pub open spec fn rustcrypto_sign_result(alg: SignatureScheme, data: Seq<u8>, key: Seq<u8>) -> Result<
    Seq<u8>,
    CryptoError,
> {
    match alg {
        SignatureScheme::ECDSA_SECP256R1_SHA256 => match rustcrypto_p256_sign(key, data) {
            Some(s) => Ok(s),
            None => Err(CryptoError::CryptoLibraryError),
        },
        SignatureScheme::ED25519 => if key.len() != 32 {
            Err(CryptoError::CryptoLibraryError)
        } else {
            Ok(rustcrypto_ed25519_sign(key, data))
        },
        _ => Err(CryptoError::UnsupportedSignatureScheme),
    }
}

/// What `hpke_open` returns, unless the HPKE instance cannot be built.
pub open spec fn rustcrypto_hpke_open_result(
    cs: Ciphersuite,
    enc: Seq<u8>,
    sk_r: Seq<u8>,
    info: Seq<u8>,
    aad: Seq<u8>,
    ct: Seq<u8>,
) -> Result<Seq<u8>, CryptoError> {
    match rustcrypto_hpke_suite(cs) {
        None => Err(CryptoError::UnsupportedCiphersuite),
        Some(s) => match rustcrypto_hpke_opened(s, enc, sk_r, info, aad, ct) {
            Ok(p) => Ok(p),
            Err(_) => Err(CryptoError::HpkeDecryptionError),
        },
    }
}

/// What `hpke_setup_receiver_and_export` returns, unless the HPKE instance
/// cannot be built.
pub open spec fn rustcrypto_receiver_export_result(
    cs: Ciphersuite,
    enc: Seq<u8>,
    sk_r: Seq<u8>,
    info: Seq<u8>,
    exporter_context: Seq<u8>,
    length: nat,
) -> Result<Seq<u8>, CryptoError> {
    match rustcrypto_hpke_suite(cs) {
        None => Err(CryptoError::UnsupportedCiphersuite),
        Some(s) => match rustcrypto_hpke_receiver_secret(s, enc, sk_r, info, exporter_context, length) {
            Ok(x) => Ok(x),
            Err(HpkeStageFailure::Export) => Err(CryptoError::ExporterError),
            Err(_) => Err(CryptoError::ReceiverSetupError),
        },
    }
}

/// An HPKE failure as `hpke_seal` and `derive_hpke_keypair` report it.
pub open spec fn rustcrypto_hpke_error(f: HpkeFailure) -> CryptoError {
    match f {
        HpkeFailure::InvalidInput => CryptoError::InvalidLength,
        _ => CryptoError::CryptoLibraryError,
    }
}

/// What `derive_hpke_keypair` returns, unless the HPKE instance cannot be
/// built.
pub open spec fn rustcrypto_derive_result(cs: Ciphersuite, ikm: Seq<u8>) -> Result<
    (Seq<u8>, Seq<u8>),
    CryptoError,
> {
    match rustcrypto_hpke_suite(cs) {
        None => Err(CryptoError::UnsupportedCiphersuite),
        Some(s) => match rustcrypto_hpke_derived_key_pair(s, ikm) {
            Ok(p) => Ok(p),
            Err(f) => Err(rustcrypto_hpke_error(f)),
        },
    }
}

/// An exporter secret in a result, taken by its view.
pub open spec fn secret_of(r: Result<ExporterSecret, CryptoError>) -> Result<Seq<u8>, CryptoError> {
    match r {
        Ok(s) => Ok(s@),
        Err(e) => Err(e),
    }
}

/// A key pair in a result, each half taken by its view.
pub open spec fn keypair_of(r: Result<HpkeKeyPair, CryptoError>) -> Result<
    (Seq<u8>, Seq<u8>),
    CryptoError,
> {
    match r {
        Ok(kp) => Ok((kp.private@, kp.public@)),
        Err(e) => Err(e),
    }
}

/// `supports` accepts exactly the ciphersuites that
/// `supported_ciphersuites` lists.
pub proof fn lemma_rustcrypto_supports_listed(cs: Ciphersuite)
    ensures
        rustcrypto_supports(cs) <==> rustcrypto_supported_list().contains(cs),
{
    let l = rustcrypto_supported_list();
    if rustcrypto_supports(cs) {
        if cs == Ciphersuite::MLS_128_DHKEMX25519_AES128GCM_SHA256_Ed25519 {
            assert(l[0] == cs);
        } else if cs == Ciphersuite::MLS_128_DHKEMX25519_CHACHA20POLY1305_SHA256_Ed25519 {
            assert(l[1] == cs);
        } else {
            assert(l[2] == cs);
        }
    }
}

/// Every ciphersuite that this provider supports has all of its algorithms
/// here: a hash function, an AEAD and a complete HPKE configuration, so
/// none of the provider's operations answers `UnsupportedCiphersuite` for it.
pub proof fn lemma_rustcrypto_supported_is_complete(cs: Ciphersuite)
    requires
        rustcrypto_supports(cs),
    ensures
        suite_hash(cs) is Some,
        suite_aead(cs) is Some,
        rustcrypto_hpke_suite(cs) is Some,
{
}

/// The HPKE configuration that this provider uses for a ciphersuite is
/// the suite's own: its KEM, the HKDF over its hash function, and its AEAD.
/// Every registered suite but X-Wing has one.
pub proof fn lemma_rustcrypto_hpke_suite_is_the_ciphersuites_own(cs: Ciphersuite)
    ensures
        rustcrypto_hpke_suite(cs) matches Some(s) ==> Some(s.kem) == suite_kem(cs) && Some(s.kdf)
            == suite_kdf(cs) && Some(s.aead) == suite_aead(cs),
        rustcrypto_hpke_suite(cs) is Some <==> !(cs is Custom) && cs != Ciphersuite::MLS_256_XWING_CHACHA20POLY1305_SHA256_Ed25519,
{
}

/// AEAD encryption seals under the suite's AEAD with the caller's key,
/// nonce and associated data; decryption with a key that fits opens with
/// the same AEAD and the caller's associated data, and reports any
/// ciphertext that does not open as `AeadDecryptionError`.
pub proof fn lemma_rustcrypto_aead_uses_its_inputs(
    cs: Ciphersuite,
    key: Seq<u8>,
    nonce: Seq<u8>,
    aad: Seq<u8>,
    data: Seq<u8>,
)
    ensures
        rustcrypto_aead_encrypt_result(cs, key, nonce, aad, data) matches Ok(c) ==> suite_aead(cs) is Some
            && c == rustcrypto_seal(suite_aead(cs).unwrap(), key, nonce, aad, data),
        suite_aead(cs) is Some && key.len() == aead_key_len(suite_aead(cs).unwrap()) ==> match rustcrypto_open(
            suite_aead(cs).unwrap(),
            key,
            nonce,
            aad,
            data,
        ) {
            Some(m) => rustcrypto_aead_decrypt_result(cs, key, nonce, aad, data) == Ok::<
                Seq<u8>,
                CryptoError,
            >(m),
            None => rustcrypto_aead_decrypt_result(cs, key, nonce, aad, data) == Err::<
                Seq<u8>,
                CryptoError,
            >(CryptoError::AeadDecryptionError),
        },
{
}

/// Verification accepts only what the scheme's verifier accepts: an ECDSA
/// P-256 signature that `p256` verifies, or a 64-byte Ed25519 signature
/// that `ed25519-dalek` verifies strictly; every other scheme is refused.
pub proof fn lemma_rustcrypto_verify_is_sound(
    alg: SignatureScheme,
    data: Seq<u8>,
    pk: Seq<u8>,
    signature: Seq<u8>,
)
    ensures
        rustcrypto_verify_result(alg, data, pk, signature) is Ok <==> (alg
            == SignatureScheme::ECDSA_SECP256R1_SHA256 && rustcrypto_p256_verify(pk, data, signature)
            is Ok) || (alg == SignatureScheme::ED25519 && signature.len() == 64
            && rustcrypto_ed25519_verify(pk, data, signature) is Ok),
{
}

/// The HPKE KEM of a ciphersuite; X-Wing is not available here.
fn kem_mode(ciphersuite: Ciphersuite) -> (r: Result<KemId, CryptoError>)
    ensures
        r == or_unsupported(rustcrypto_kem(ciphersuite)),
{
    match ciphersuite {
        Ciphersuite::MLS_128_DHKEMX25519_AES128GCM_SHA256_Ed25519
        | Ciphersuite::MLS_128_DHKEMX25519_CHACHA20POLY1305_SHA256_Ed25519 => Ok(
            KemId::DhKem25519,
        ),
        Ciphersuite::MLS_128_DHKEMP256_AES128GCM_SHA256_P256 => Ok(KemId::DhKemP256),
        Ciphersuite::MLS_256_DHKEMX448_AES256GCM_SHA512_Ed448
        | Ciphersuite::MLS_256_DHKEMX448_CHACHA20POLY1305_SHA512_Ed448 => Ok(KemId::DhKem448),
        Ciphersuite::MLS_256_DHKEMP384_AES256GCM_SHA384_P384 => Ok(KemId::DhKemP384),
        Ciphersuite::MLS_256_DHKEMP521_AES256GCM_SHA512_P521 => Ok(KemId::DhKemP521),
        Ciphersuite::MLS_256_XWING_CHACHA20POLY1305_SHA256_Ed25519 => Err(
            CryptoError::UnsupportedCiphersuite,
        ),
        Ciphersuite::Custom(_) => Err(CryptoError::UnsupportedCiphersuite),
    }
}

/// The HPKE KDF of a ciphersuite: HKDF over its hash function.
fn kdf_mode(ciphersuite: Ciphersuite) -> (r: Result<KdfId, CryptoError>)
    ensures
        r == or_unsupported(suite_kdf(ciphersuite)),
{
    match ciphersuite {
        Ciphersuite::MLS_128_DHKEMX25519_AES128GCM_SHA256_Ed25519
        | Ciphersuite::MLS_128_DHKEMP256_AES128GCM_SHA256_P256
        | Ciphersuite::MLS_128_DHKEMX25519_CHACHA20POLY1305_SHA256_Ed25519
        | Ciphersuite::MLS_256_XWING_CHACHA20POLY1305_SHA256_Ed25519 => Ok(KdfId::HkdfSha256),
        Ciphersuite::MLS_256_DHKEMP384_AES256GCM_SHA384_P384 => Ok(KdfId::HkdfSha384),
        Ciphersuite::MLS_256_DHKEMX448_AES256GCM_SHA512_Ed448
        | Ciphersuite::MLS_256_DHKEMP521_AES256GCM_SHA512_P521
        | Ciphersuite::MLS_256_DHKEMX448_CHACHA20POLY1305_SHA512_Ed448 => Ok(KdfId::HkdfSha512),
        Ciphersuite::Custom(_) => Err(CryptoError::UnsupportedCiphersuite),
    }
}

/// The HPKE AEAD of a ciphersuite.
fn aead_mode(ciphersuite: Ciphersuite) -> (r: Result<AeadId, CryptoError>)
    ensures
        r == or_unsupported(suite_aead(ciphersuite)),
{
    match ciphersuite {
        Ciphersuite::MLS_128_DHKEMX25519_AES128GCM_SHA256_Ed25519
        | Ciphersuite::MLS_128_DHKEMP256_AES128GCM_SHA256_P256 => Ok(AeadId::Aes128Gcm),
        Ciphersuite::MLS_128_DHKEMX25519_CHACHA20POLY1305_SHA256_Ed25519
        | Ciphersuite::MLS_256_XWING_CHACHA20POLY1305_SHA256_Ed25519 => Ok(
            AeadId::ChaCha20Poly1305,
        ),
        Ciphersuite::MLS_256_DHKEMX448_AES256GCM_SHA512_Ed448
        | Ciphersuite::MLS_256_DHKEMP384_AES256GCM_SHA384_P384
        | Ciphersuite::MLS_256_DHKEMP521_AES256GCM_SHA512_P521 => Ok(AeadId::Aes256Gcm),
        Ciphersuite::MLS_256_DHKEMX448_CHACHA20POLY1305_SHA512_Ed448 => Ok(
            AeadId::ChaCha20Poly1305,
        ),
        Ciphersuite::Custom(_) => Err(CryptoError::UnsupportedCiphersuite),
    }
}

/// The base-mode HPKE configuration of a ciphersuite.
fn hpke_from_ciphersuite(ciphersuite: Ciphersuite) -> (r: Result<HpkeSuite, CryptoError>)
    ensures
        r == or_unsupported(rustcrypto_hpke_suite(ciphersuite)),
        r matches Ok(st) ==> Some(st.kem) == suite_kem(ciphersuite) && Some(st.kdf) == suite_kdf(
            ciphersuite,
        ) && Some(st.aead) == suite_aead(ciphersuite),
{
    let kem = kem_mode(ciphersuite)?;
    let kdf = kdf_mode(ciphersuite)?;
    let aead = aead_mode(ciphersuite)?;
    Ok(HpkeSuite { kem, kdf, aead })
}

/// What `hpke_seal` gives for an outcome of the HPKE seal call: the KEM
/// output and the ciphertext as they came, or the failure as
/// `rustcrypto_hpke_error` reports it.
pub fn rustcrypto_seal_outcome(sealed: Result<(Vec<u8>, Vec<u8>), HpkeFailure>) -> (r: Result<
    HpkeCiphertext,
    CryptoError,
>)
    ensures
        match sealed {
            Ok(out) => r matches Ok(c) && c.kem_output@ == out.0@ && c.ciphertext@ == out.1@,
            Err(f) => r == Err::<HpkeCiphertext, CryptoError>(rustcrypto_hpke_error(f)),
        },
{
    match sealed {
        Ok((kem_output, ciphertext)) => Ok(HpkeCiphertext { kem_output, ciphertext }),
        Err(HpkeFailure::InvalidInput) => Err(CryptoError::InvalidLength),
        Err(_) => Err(CryptoError::CryptoLibraryError),
    }
}

/// What `hpke_setup_sender_and_export` gives for an outcome of the sender
/// setup and export calls: the KEM output and the secret as they came,
/// `ExporterError` where the export failed and `SenderSetupError` where
/// anything before it did.
pub fn rustcrypto_sender_export_outcome(
    exported: Result<(Vec<u8>, Vec<u8>), HpkeStageFailure>,
) -> (r: Result<(Vec<u8>, ExporterSecret), CryptoError>)
    ensures
        match exported {
            Ok(out) => r matches Ok(o) && o.0@ == out.0@ && o.1@ == out.1@,
            Err(HpkeStageFailure::Export) => r == Err::<(Vec<u8>, ExporterSecret), CryptoError>(
                CryptoError::ExporterError,
            ),
            Err(_) => r == Err::<(Vec<u8>, ExporterSecret), CryptoError>(
                CryptoError::SenderSetupError,
            ),
        },
{
    match exported {
        Ok((kem_output, secret)) => Ok((kem_output, ExporterSecret::from(secret))),
        Err(HpkeStageFailure::Export) => Err(CryptoError::ExporterError),
        Err(_) => Err(CryptoError::SenderSetupError),
    }
}

impl RustCrypto {
    /// Whether this provider supports `ciphersuite`: exactly the two
    /// X25519 suites with AES-128-GCM and ChaCha20-Poly1305 and the P-256
    /// suite with AES-128-GCM.
    pub fn supports(&self, ciphersuite: Ciphersuite) -> (r: Result<(), CryptoError>)
        ensures
            r is Ok <==> rustcrypto_supports(ciphersuite),
            r is Err ==> r == Err::<(), CryptoError>(CryptoError::UnsupportedCiphersuite),
    {
        match ciphersuite {
            Ciphersuite::MLS_128_DHKEMX25519_AES128GCM_SHA256_Ed25519
            | Ciphersuite::MLS_128_DHKEMX25519_CHACHA20POLY1305_SHA256_Ed25519
            | Ciphersuite::MLS_128_DHKEMP256_AES128GCM_SHA256_P256 => Ok(()),
            _ => Err(CryptoError::UnsupportedCiphersuite),
        }
    }

    /// The ciphersuites this provider supports.
    pub fn supported_ciphersuites(&self) -> (v: Vec<Ciphersuite>)
        ensures
            v@ == rustcrypto_supported_list(),
    {
        vec![
            Ciphersuite::MLS_128_DHKEMX25519_AES128GCM_SHA256_Ed25519,
            Ciphersuite::MLS_128_DHKEMX25519_CHACHA20POLY1305_SHA256_Ed25519,
            Ciphersuite::MLS_128_DHKEMP256_AES128GCM_SHA256_P256,
        ]
    }

    /// HKDF-Extract with the hash function of `ciphersuite`.
    pub fn hkdf_extract(&self, ciphersuite: Ciphersuite, salt: &[u8], ikm: &[u8]) -> (r: Result<
        Vec<u8>,
        CryptoError,
    >)
        ensures
            match suite_hash(ciphersuite) {
                None => r == Err::<Vec<u8>, CryptoError>(CryptoError::UnsupportedCiphersuite),
                Some(h) => r matches Ok(prk) && prk@ == rustcrypto_extract(h, salt@, ikm@)
                    && prk@.len() == digest_length(h),
            },
            r matches Ok(prk) ==> prk@.len() == spec_hash_length(ciphersuite),
            r matches Ok(prk) ==> prk@ == rustcrypto_hmac_tag(suite_hash(ciphersuite).unwrap(), salt@, ikm@),
    {
        match ciphersuite {
            Ciphersuite::MLS_128_DHKEMX25519_AES128GCM_SHA256_Ed25519
            | Ciphersuite::MLS_128_DHKEMP256_AES128GCM_SHA256_P256
            | Ciphersuite::MLS_128_DHKEMX25519_CHACHA20POLY1305_SHA256_Ed25519
            | Ciphersuite::MLS_256_XWING_CHACHA20POLY1305_SHA256_Ed25519 => Ok(
                hkdf_sha256_extract(salt, ikm),
            ),
            Ciphersuite::MLS_256_DHKEMP384_AES256GCM_SHA384_P384 => Ok(
                hkdf_sha384_extract(salt, ikm),
            ),
            Ciphersuite::MLS_256_DHKEMX448_AES256GCM_SHA512_Ed448
            | Ciphersuite::MLS_256_DHKEMP521_AES256GCM_SHA512_P521
            | Ciphersuite::MLS_256_DHKEMX448_CHACHA20POLY1305_SHA512_Ed448 => Ok(
                hkdf_sha512_extract(salt, ikm),
            ),
            Ciphersuite::Custom(_) => Err(CryptoError::UnsupportedCiphersuite),
        }
    }

    /// HMAC with the hash function of `ciphersuite`.
    pub fn hmac(&self, ciphersuite: Ciphersuite, key: &[u8], message: &[u8]) -> (r: Result<
        Vec<u8>,
        CryptoError,
    >)
        ensures
            match suite_hash(ciphersuite) {
                None => r == Err::<Vec<u8>, CryptoError>(CryptoError::UnsupportedCiphersuite),
                Some(h) => r matches Ok(tag) && tag@ == rustcrypto_hmac_tag(h, key@, message@)
                    && tag@.len() == digest_length(h),
            },
            r matches Ok(tag) ==> tag@.len() == spec_hash_length(ciphersuite),
    {
        crate::rustcrypto_hmac::hmac(ciphersuite, key, message)
    }

    /// HKDF-Expand with the hash function of `ciphersuite` to `okm_len`
    /// bytes. A pseudorandom key shorter than the digest, or more than 255
    /// digests of output, gives `HkdfOutputLengthInvalid`.
    pub fn hkdf_expand(
        &self,
        ciphersuite: Ciphersuite,
        prk: &[u8],
        info: &[u8],
        okm_len: usize,
    ) -> (r: Result<Vec<u8>, CryptoError>)
        ensures
            match suite_hash(ciphersuite) {
                None => r == Err::<Vec<u8>, CryptoError>(CryptoError::UnsupportedCiphersuite),
                Some(h) => if prk@.len() < digest_length(h) || okm_len > 255 * digest_length(h) {
                    r == Err::<Vec<u8>, CryptoError>(CryptoError::HkdfOutputLengthInvalid)
                } else {
                    r matches Ok(okm) && okm@ == rustcrypto_expand(h, prk@, info@, okm_len as nat)
                },
            },
            r matches Ok(okm) ==> okm@.len() == okm_len,
            r matches Ok(okm) ==> forall|m: nat|
                m <= okm_len ==> #[trigger] rustcrypto_expand(suite_hash(ciphersuite).unwrap(), prk@, info@, m)
                    == okm@.take(m as int),
    {
        let mut okm = vec![0u8; okm_len];
        let expanded = match ciphersuite {
            Ciphersuite::MLS_128_DHKEMX25519_AES128GCM_SHA256_Ed25519
            | Ciphersuite::MLS_128_DHKEMP256_AES128GCM_SHA256_P256
            | Ciphersuite::MLS_128_DHKEMX25519_CHACHA20POLY1305_SHA256_Ed25519
            | Ciphersuite::MLS_256_XWING_CHACHA20POLY1305_SHA256_Ed25519 => hkdf_sha256_expand(
                prk,
                info,
                &mut okm,
            ),
            Ciphersuite::MLS_256_DHKEMP384_AES256GCM_SHA384_P384 => hkdf_sha384_expand(
                prk,
                info,
                &mut okm,
            ),
            Ciphersuite::MLS_256_DHKEMX448_AES256GCM_SHA512_Ed448
            | Ciphersuite::MLS_256_DHKEMP521_AES256GCM_SHA512_P521
            | Ciphersuite::MLS_256_DHKEMX448_CHACHA20POLY1305_SHA512_Ed448 => hkdf_sha512_expand(
                prk,
                info,
                &mut okm,
            ),
            Ciphersuite::Custom(_) => return Err(CryptoError::UnsupportedCiphersuite),
        };
        match expanded {
            Ok(()) => Ok(okm),
            Err(_) => Err(CryptoError::HkdfOutputLengthInvalid),
        }
    }

    /// The digest of `data` with the hash function of `ciphersuite`.
    pub fn hash(&self, ciphersuite: Ciphersuite, data: &[u8]) -> (r: Result<Vec<u8>, CryptoError>)
        ensures
            match suite_hash(ciphersuite) {
                None => r == Err::<Vec<u8>, CryptoError>(CryptoError::UnsupportedCiphersuite),
                Some(h) => r matches Ok(d) && d@ == rustcrypto_digest(h, data@) && d@.len()
                    == digest_length(h),
            },
            r matches Ok(d) ==> d@.len() == spec_hash_length(ciphersuite),
    {
        match ciphersuite {
            Ciphersuite::MLS_128_DHKEMX25519_AES128GCM_SHA256_Ed25519
            | Ciphersuite::MLS_128_DHKEMP256_AES128GCM_SHA256_P256
            | Ciphersuite::MLS_128_DHKEMX25519_CHACHA20POLY1305_SHA256_Ed25519
            | Ciphersuite::MLS_256_XWING_CHACHA20POLY1305_SHA256_Ed25519 => Ok(sha256_digest(data)),
            Ciphersuite::MLS_256_DHKEMP384_AES256GCM_SHA384_P384 => Ok(sha384_digest(data)),
            Ciphersuite::MLS_256_DHKEMX448_AES256GCM_SHA512_Ed448
            | Ciphersuite::MLS_256_DHKEMP521_AES256GCM_SHA512_P521
            | Ciphersuite::MLS_256_DHKEMX448_CHACHA20POLY1305_SHA512_Ed448 => Ok(sha512_digest(data)),
            Ciphersuite::Custom(_) => Err(CryptoError::UnsupportedCiphersuite),
        }
    }

    /// AEAD encryption with the AEAD of `ciphersuite`: the ciphertext with
    /// the 16-byte tag appended. A key of the wrong length, or a message or
    /// associated data longer than the AEAD allows, gives
    /// `CryptoLibraryError`.
    pub fn aead_encrypt(
        &self,
        ciphersuite: Ciphersuite,
        key: &[u8],
        data: &[u8],
        nonce: &[u8],
        aad: &[u8],
    ) -> (r: Result<Vec<u8>, CryptoError>)
        requires
            rustcrypto_nonce_fits(ciphersuite, key@, nonce@),
        ensures
            bytes_of(r) == rustcrypto_aead_encrypt_result(ciphersuite, key@, nonce@, aad@, data@),
            r matches Ok(c) ==> c@.len() == data@.len() + 16,
            r matches Ok(c) ==> key@.len() == spec_aead_key_length(ciphersuite) && nonce@.len()
                == spec_aead_nonce_length() && c@.len() == data@.len() + spec_mac_length(),
            r matches Ok(c) ==> c@ == rustcrypto_seal(suite_aead(ciphersuite).unwrap(), key@, nonce@, aad@, data@),
    {
        let sealed = match ciphersuite {
            Ciphersuite::MLS_128_DHKEMX25519_AES128GCM_SHA256_Ed25519
            | Ciphersuite::MLS_128_DHKEMP256_AES128GCM_SHA256_P256 => aes128gcm_seal(
                key,
                nonce,
                aad,
                data,
            ),
            Ciphersuite::MLS_256_DHKEMX448_AES256GCM_SHA512_Ed448
            | Ciphersuite::MLS_256_DHKEMP521_AES256GCM_SHA512_P521
            | Ciphersuite::MLS_256_DHKEMP384_AES256GCM_SHA384_P384 => aes256gcm_seal(
                key,
                nonce,
                aad,
                data,
            ),
            Ciphersuite::MLS_128_DHKEMX25519_CHACHA20POLY1305_SHA256_Ed25519
            | Ciphersuite::MLS_256_DHKEMX448_CHACHA20POLY1305_SHA512_Ed448
            | Ciphersuite::MLS_256_XWING_CHACHA20POLY1305_SHA256_Ed25519 => chacha20poly1305_seal(
                key,
                nonce,
                aad,
                data,
            ),
            Ciphersuite::Custom(_) => return Err(CryptoError::UnsupportedCiphersuite),
        };
        match sealed {
            Ok(c) => Ok(c),
            Err(_) => Err(CryptoError::CryptoLibraryError),
        }
    }

    /// AEAD decryption with the AEAD of `ciphersuite`; `ct_tag` is the
    /// ciphertext with its tag appended. A key of the wrong length gives
    /// `CryptoLibraryError`, a ciphertext that does not authenticate
    /// `AeadDecryptionError`. Decryption gives back every message that
    /// `aead_encrypt` produced `ct_tag` from under the same suite, key,
    /// nonce and associated data.
    pub fn aead_decrypt(
        &self,
        ciphersuite: Ciphersuite,
        key: &[u8],
        ct_tag: &[u8],
        nonce: &[u8],
        aad: &[u8],
    ) -> (r: Result<Vec<u8>, CryptoError>)
        requires
            rustcrypto_nonce_fits(ciphersuite, key@, nonce@),
        ensures
            bytes_of(r) == rustcrypto_aead_decrypt_result(ciphersuite, key@, nonce@, aad@, ct_tag@),
            forall|m: Seq<u8>|
                #[trigger] rustcrypto_aead_encrypt_result(ciphersuite, key@, nonce@, aad@, m)
                    == Ok::<Seq<u8>, CryptoError>(ct_tag@) ==> bytes_of(r) == Ok::<
                    Seq<u8>,
                    CryptoError,
                >(m),
            r matches Ok(m) ==> m@.len() + 16 == ct_tag@.len(),
            suite_aead(ciphersuite) matches Some(a) && key@.len() == aead_key_len(a) && ct_tag@.len()
                < 16 ==> r == Err::<Vec<u8>, CryptoError>(CryptoError::AeadDecryptionError),
            suite_aead(ciphersuite) is Some && key@.len() == aead_key_len(suite_aead(ciphersuite).unwrap())
                ==> match rustcrypto_open(
                suite_aead(ciphersuite).unwrap(),
                key@,
                nonce@,
                aad@,
                ct_tag@,
            ) {
                Some(m) => bytes_of(r) == Ok::<Seq<u8>, CryptoError>(m),
                None => r == Err::<Vec<u8>, CryptoError>(CryptoError::AeadDecryptionError),
            },
    {
        let opened = match ciphersuite {
            Ciphersuite::MLS_128_DHKEMX25519_AES128GCM_SHA256_Ed25519
            | Ciphersuite::MLS_128_DHKEMP256_AES128GCM_SHA256_P256 => aes128gcm_open(
                key,
                nonce,
                aad,
                ct_tag,
            ),
            Ciphersuite::MLS_256_DHKEMX448_AES256GCM_SHA512_Ed448
            | Ciphersuite::MLS_256_DHKEMP521_AES256GCM_SHA512_P521
            | Ciphersuite::MLS_256_DHKEMP384_AES256GCM_SHA384_P384 => aes256gcm_open(
                key,
                nonce,
                aad,
                ct_tag,
            ),
            Ciphersuite::MLS_128_DHKEMX25519_CHACHA20POLY1305_SHA256_Ed25519
            | Ciphersuite::MLS_256_DHKEMX448_CHACHA20POLY1305_SHA512_Ed448
            | Ciphersuite::MLS_256_XWING_CHACHA20POLY1305_SHA256_Ed25519 => chacha20poly1305_open(
                key,
                nonce,
                aad,
                ct_tag,
            ),
            Ciphersuite::Custom(_) => return Err(CryptoError::UnsupportedCiphersuite),
        };
        match opened {
            Ok(m) => Ok(m),
            Err(AeadCallFailure::KeyLength) => Err(CryptoError::CryptoLibraryError),
            Err(_) => Err(CryptoError::AeadDecryptionError),
        }
    }
}

impl RustCrypto {
    /// A fresh key pair (private, public) for `alg`: for ECDSA P-256 the
    /// 32-byte scalar and the 65-byte uncompressed point, for Ed25519 two
    /// 32-byte keys. Other schemes give `UnsupportedSignatureScheme`; a
    /// provider without a generator, or a poisoned generator lock, gives
    /// `InsufficientRandomness`.
    pub fn signature_key_gen(&self, alg: SignatureScheme) -> (r: Result<
        (Vec<u8>, Vec<u8>),
        CryptoError,
    >)
        ensures
            (r == Err::<(Vec<u8>, Vec<u8>), CryptoError>(CryptoError::UnsupportedSignatureScheme))
                <==> (alg != SignatureScheme::ECDSA_SECP256R1_SHA256 && alg
                != SignatureScheme::ED25519),
            r is Err ==> (r == Err::<(Vec<u8>, Vec<u8>), CryptoError>(CryptoError::UnsupportedSignatureScheme)
                || r == Err::<(Vec<u8>, Vec<u8>), CryptoError>(CryptoError::InsufficientRandomness)),
            r matches Ok(k) ==> (alg == SignatureScheme::ECDSA_SECP256R1_SHA256 ==> k.0@.len() == 32
                && k.1@.len() == 65 && k.1@[0] == 0x04u8),
            r matches Ok(k) ==> (alg == SignatureScheme::ED25519 ==> k.0@.len() == 32 && k.1@.len()
                == 32),
            r matches Ok(k) ==> k.1@ == rustcrypto_public_key(alg, k.0@),
            !self.is_seeded() && (alg == SignatureScheme::ECDSA_SECP256R1_SHA256 || alg
                == SignatureScheme::ED25519) ==> r == Err::<(Vec<u8>, Vec<u8>), CryptoError>(
                CryptoError::InsufficientRandomness,
            ),
    {
        match alg {
            SignatureScheme::ECDSA_SECP256R1_SHA256 => {
                match &self.rng {
                    None => Err(CryptoError::InsufficientRandomness),
                    Some(lock) => match rwlock_write(lock) {
                        Some(mut guard) => Ok(p256_generate(&mut guard)),
                        None => Err(CryptoError::InsufficientRandomness),
                    },
                }
            },
            SignatureScheme::ED25519 => {
                match &self.rng {
                    None => Err(CryptoError::InsufficientRandomness),
                    Some(lock) => match rwlock_write(lock) {
                        Some(mut guard) => Ok(ed25519_generate(&mut guard)),
                        None => Err(CryptoError::InsufficientRandomness),
                    },
                }
            },
            _ => Err(CryptoError::UnsupportedSignatureScheme),
        }
    }

    /// Verifies `signature` on `data` under the public key `pk`: ECDSA P-256
    /// with a SEC1 key and a DER signature, or Ed25519 with 32-byte keys
    /// and 64-byte signatures. A key that does not decode (and, for
    /// Ed25519, a signature of the wrong length) gives `CryptoLibraryError`,
    /// a signature that does not decode or verify `InvalidSignature`.
    pub fn verify_signature(
        &self,
        alg: SignatureScheme,
        data: &[u8],
        pk: &[u8],
        signature: &[u8],
    ) -> (r: Result<(), CryptoError>)
        ensures
            r == rustcrypto_verify_result(alg, data@, pk@, signature@),
            forall|sk: Seq<u8>|
                pk@ == rustcrypto_public_key(alg, sk) && #[trigger] rustcrypto_sign_result(
                    alg,
                    data@,
                    sk,
                ) == Ok::<Seq<u8>, CryptoError>(signature@) && (alg == SignatureScheme::ED25519
                    ==> signature@.len() == 64 && signature@.subrange(0, 32)
                    != ed25519_identity_encoding()) ==> r is Ok,
            alg == SignatureScheme::ED25519 && pk@.len() != 32 ==> r == Err::<(), CryptoError>(
                CryptoError::CryptoLibraryError,
            ),
            r is Ok ==> (alg == SignatureScheme::ECDSA_SECP256R1_SHA256 && rustcrypto_p256_verify(
                pk@,
                data@,
                signature@,
            ) is Ok) || (alg == SignatureScheme::ED25519 && signature@.len() == 64
                && rustcrypto_ed25519_verify(pk@, data@, signature@) is Ok),
    {
        match alg {
            SignatureScheme::ECDSA_SECP256R1_SHA256 => {
                match p256_verify(pk, data, signature) {
                    Ok(()) => Ok(()),
                    Err(SignatureFailure::InvalidKey) => Err(CryptoError::CryptoLibraryError),
                    Err(_) => Err(CryptoError::InvalidSignature),
                }
            },
            SignatureScheme::ED25519 => {
                if signature.len() != 64 {
                    return Err(CryptoError::CryptoLibraryError);
                }
                match ed25519_verify(pk, data, signature) {
                    Ok(()) => Ok(()),
                    Err(SignatureFailure::InvalidKey) => Err(CryptoError::CryptoLibraryError),
                    Err(_) => Err(CryptoError::InvalidSignature),
                }
            },
            _ => Err(CryptoError::UnsupportedSignatureScheme),
        }
    }

    /// Signs `data` with the private `key`: a DER-encoded ECDSA P-256
    /// signature (the key must be a 32-byte scalar) or a 64-byte Ed25519
    /// signature. A key that is not valid gives `CryptoLibraryError`.
    pub fn sign(&self, alg: SignatureScheme, data: &[u8], key: &[u8]) -> (r: Result<
        Vec<u8>,
        CryptoError,
    >)
        requires
            alg == SignatureScheme::ECDSA_SECP256R1_SHA256 ==> key@.len() == 32,
        ensures
            bytes_of(r) == rustcrypto_sign_result(alg, data@, key@),
            r matches Ok(s) ==> (alg == SignatureScheme::ED25519 ==> s@.len() == 64),
            r matches Ok(s) ==> (alg == SignatureScheme::ECDSA_SECP256R1_SHA256
                ==> is_der_ecdsa_p256_outline(s@)),
    {
        match alg {
            SignatureScheme::ECDSA_SECP256R1_SHA256 => {
                match p256_sign(key, data) {
                    Ok(s) => Ok(s),
                    Err(_) => Err(CryptoError::CryptoLibraryError),
                }
            },
            SignatureScheme::ED25519 => {
                match ed25519_sign(key, data) {
                    Ok(s) => Ok(s),
                    Err(_) => Err(CryptoError::CryptoLibraryError),
                }
            },
            _ => Err(CryptoError::UnsupportedSignatureScheme),
        }
    }

    /// Single-shot HPKE encryption in base mode to `pk_r` with the HPKE
    /// configuration of `ciphersuite`. The ciphertext carries the 16-byte
    /// AEAD tag. An input that HPKE finds malformed gives `InvalidLength`,
    /// any other HPKE failure `CryptoLibraryError`. Opening the result with
    /// the private key of a pair that `derive_hpke_keypair` gives for `pk_r`
    /// yields `ptxt` (see `hpke_open`).
    pub fn hpke_seal(
        &self,
        ciphersuite: Ciphersuite,
        pk_r: &[u8],
        info: &[u8],
        aad: &[u8],
        ptxt: &[u8],
    ) -> (r: Result<HpkeCiphertext, CryptoError>)
        ensures
            rustcrypto_hpke_suite(ciphersuite) is None ==> r == Err::<HpkeCiphertext, CryptoError>(
                CryptoError::UnsupportedCiphersuite,
            ),
            r is Err ==> (r == Err::<HpkeCiphertext, CryptoError>(CryptoError::UnsupportedCiphersuite)
                || r == Err::<HpkeCiphertext, CryptoError>(CryptoError::InvalidLength) || r == Err::<
                HpkeCiphertext,
                CryptoError,
            >(CryptoError::CryptoLibraryError)),
            r matches Ok(c) ==> c.ciphertext@.len() == ptxt@.len() + 16,
            (r == Err::<HpkeCiphertext, CryptoError>(CryptoError::UnsupportedCiphersuite)) <==> rustcrypto_hpke_suite(
                ciphersuite,
            ) is None,
            r matches Ok(c) ==> (rustcrypto_hpke_suite(ciphersuite) matches Some(s)
                && dh_kem_key_lengths(s.kem) matches Some(l) ==> c.kem_output@.len() == l.1),
            (r matches Ok(c) ==> forall|ikm: Seq<u8>, sk: Seq<u8>|
                #![trigger rustcrypto_derive_result(ciphersuite, ikm), rustcrypto_hpke_open_result(ciphersuite, c.kem_output@, sk, info@, aad@, c.ciphertext@)]
                rustcrypto_derive_result(ciphersuite, ikm) == Ok::<(Seq<u8>, Seq<u8>), CryptoError>(
                    (sk, pk_r@),
                ) ==> rustcrypto_hpke_open_result(
                    ciphersuite,
                    c.kem_output@,
                    sk,
                    info@,
                    aad@,
                    c.ciphertext@,
                ) == Ok::<Seq<u8>, CryptoError>(ptxt@)),
            r matches Ok(c) ==> (suite_kem(ciphersuite) matches Some(k) && dh_kem_key_lengths(k) matches Some(
                l,
            ) ==> c.kem_output@.len() == l.1),
    {
        let suite = hpke_from_ciphersuite(ciphersuite)?;
        let sealed = rustcrypto_hpke_seal(suite, pk_r, info, aad, ptxt);
        let ghost raw = sealed;
        let r = rustcrypto_seal_outcome(sealed);
        proof {
            if r is Ok {
                let c = r->Ok_0;
                assert forall|ikm: Seq<u8>, sk: Seq<u8>|
                    #![trigger rustcrypto_derive_result(ciphersuite, ikm), rustcrypto_hpke_open_result(ciphersuite, c.kem_output@, sk, info@, aad@, c.ciphertext@)]
                    rustcrypto_derive_result(ciphersuite, ikm) == Ok::<(Seq<u8>, Seq<u8>), CryptoError>(
                        (sk, pk_r@),
                    ) implies rustcrypto_hpke_open_result(
                        ciphersuite,
                        c.kem_output@,
                        sk,
                        info@,
                        aad@,
                        c.ciphertext@,
                    ) == Ok::<Seq<u8>, CryptoError>(ptxt@) by {
                    let out = raw->Ok_0;
                    assert(rustcrypto_hpke_derived_key_pair(suite, ikm) == Ok::<(Seq<u8>, Seq<u8>), HpkeFailure>((sk, pk_r@)));
                    assert(rustcrypto_hpke_opened(suite, out.0@, sk, info@, aad@, out.1@) == Ok::<Seq<u8>, HpkeFailure>(ptxt@));
                }
            }
        }
        r
    }

    /// Single-shot HPKE decryption in base mode with the private key `sk_r`.
    /// Every HPKE failure gives `HpkeDecryptionError`.
    pub fn hpke_open(
        &self,
        ciphersuite: Ciphersuite,
        input: &HpkeCiphertext,
        sk_r: &[u8],
        info: &[u8],
        aad: &[u8],
    ) -> (r: Result<Vec<u8>, CryptoError>)
        ensures
            bytes_of(r) == rustcrypto_hpke_open_result(
                ciphersuite,
                input.kem_output@,
                sk_r@,
                info@,
                aad@,
                input.ciphertext@,
            ) || (rustcrypto_hpke_suite(ciphersuite) is Some && r == Err::<Vec<u8>, CryptoError>(
                CryptoError::HpkeDecryptionError,
            )),
    {
        let suite = hpke_from_ciphersuite(ciphersuite)?;
        match rustcrypto_hpke_open(
            suite,
            input.kem_output.as_slice(),
            sk_r,
            info,
            aad,
            input.ciphertext.as_slice(),
        ) {
            Ok(p) => Ok(p),
            Err(_) => Err(CryptoError::HpkeDecryptionError),
        }
    }

    /// Sets up an HPKE sender to `pk_r` in base mode and exports a secret
    /// of `exporter_length` bytes; gives the KEM output and the secret.
    /// A failed setup gives `SenderSetupError`, a failed export
    /// `ExporterError`. A receiver set up from the KEM output with the
    /// private key of a pair that `derive_hpke_keypair` gives for `pk_r`
    /// exports the same secret (see `hpke_setup_receiver_and_export`).
    pub fn hpke_setup_sender_and_export(
        &self,
        ciphersuite: Ciphersuite,
        pk_r: &[u8],
        info: &[u8],
        exporter_context: &[u8],
        exporter_length: usize,
    ) -> (r: Result<(Vec<u8>, ExporterSecret), CryptoError>)
        ensures
            rustcrypto_hpke_suite(ciphersuite) is None ==> r == Err::<
                (Vec<u8>, ExporterSecret),
                CryptoError,
            >(CryptoError::UnsupportedCiphersuite),
            r is Err ==> (r == Err::<(Vec<u8>, ExporterSecret), CryptoError>(
                CryptoError::UnsupportedCiphersuite,
            ) || r == Err::<(Vec<u8>, ExporterSecret), CryptoError>(CryptoError::SenderSetupError)
                || r == Err::<(Vec<u8>, ExporterSecret), CryptoError>(CryptoError::ExporterError)),
            r matches Ok(out) ==> out.1@.len() == exporter_length,
            (r == Err::<(Vec<u8>, ExporterSecret), CryptoError>(CryptoError::UnsupportedCiphersuite)) <==> rustcrypto_hpke_suite(
                ciphersuite,
            ) is None,
            r matches Ok(out) ==> (rustcrypto_hpke_suite(ciphersuite) matches Some(s)
                && dh_kem_key_lengths(s.kem) matches Some(l) ==> out.0@.len() == l.1),
            (r matches Ok(out) ==> forall|ikm: Seq<u8>, sk: Seq<u8>|
                #![trigger rustcrypto_derive_result(ciphersuite, ikm), rustcrypto_receiver_export_result(ciphersuite, out.0@, sk, info@, exporter_context@, exporter_length as nat)]
                rustcrypto_derive_result(ciphersuite, ikm) == Ok::<(Seq<u8>, Seq<u8>), CryptoError>(
                    (sk, pk_r@),
                ) ==> rustcrypto_receiver_export_result(
                    ciphersuite,
                    out.0@,
                    sk,
                    info@,
                    exporter_context@,
                    exporter_length as nat,
                ) == Ok::<Seq<u8>, CryptoError>(out.1@)),
            r matches Ok(out) ==> (suite_kem(ciphersuite) matches Some(k) && dh_kem_key_lengths(k) matches Some(
                l,
            ) ==> out.0@.len() == l.1),
    {
        let suite = hpke_from_ciphersuite(ciphersuite)?;
        let exported = rustcrypto_hpke_sender_export(suite, pk_r, info, exporter_context, exporter_length);
        let ghost raw = exported;
        let r = rustcrypto_sender_export_outcome(exported);
        proof {
            if r is Ok {
                let out = r->Ok_0;
                assert forall|ikm: Seq<u8>, sk: Seq<u8>|
                    #![trigger rustcrypto_derive_result(ciphersuite, ikm), rustcrypto_receiver_export_result(ciphersuite, out.0@, sk, info@, exporter_context@, exporter_length as nat)]
                    rustcrypto_derive_result(ciphersuite, ikm) == Ok::<(Seq<u8>, Seq<u8>), CryptoError>(
                        (sk, pk_r@),
                    ) implies rustcrypto_receiver_export_result(
                        ciphersuite,
                        out.0@,
                        sk,
                        info@,
                        exporter_context@,
                        exporter_length as nat,
                    ) == Ok::<Seq<u8>, CryptoError>(out.1@) by {
                    let pair = raw->Ok_0;
                    assert(rustcrypto_hpke_derived_key_pair(suite, ikm) == Ok::<(Seq<u8>, Seq<u8>), HpkeFailure>((sk, pk_r@)));
                    assert(rustcrypto_hpke_receiver_secret(suite, pair.0@, sk, info@, exporter_context@, exporter_length as nat) == Ok::<Seq<u8>, HpkeStageFailure>(pair.1@));
                }
            }
        }
        r
    }

    /// Sets up an HPKE receiver in base mode from the KEM output `enc` and
    /// exports a secret of `exporter_length` bytes. A failed setup gives
    /// `ReceiverSetupError`, a failed export `ExporterError`.
    pub fn hpke_setup_receiver_and_export(
        &self,
        ciphersuite: Ciphersuite,
        enc: &[u8],
        sk_r: &[u8],
        info: &[u8],
        exporter_context: &[u8],
        exporter_length: usize,
    ) -> (r: Result<ExporterSecret, CryptoError>)
        ensures
            secret_of(r) == rustcrypto_receiver_export_result(
                ciphersuite,
                enc@,
                sk_r@,
                info@,
                exporter_context@,
                exporter_length as nat,
            ) || (rustcrypto_hpke_suite(ciphersuite) is Some && r == Err::<ExporterSecret, CryptoError>(
                CryptoError::ReceiverSetupError,
            )),
            r matches Ok(s) ==> s@.len() == exporter_length,
    {
        let suite = hpke_from_ciphersuite(ciphersuite)?;
        match rustcrypto_hpke_receiver_export(suite, enc, sk_r, info, exporter_context, exporter_length) {
            Ok(secret) => Ok(ExporterSecret::from(secret)),
            Err(HpkeStageFailure::Export) => Err(CryptoError::ExporterError),
            Err(_) => Err(CryptoError::ReceiverSetupError),
        }
    }

    /// Derives an HPKE key pair from `ikm` with the KEM of `ciphersuite`.
    /// Input keying material that HPKE finds malformed gives
    /// `InvalidLength`, any other failure `CryptoLibraryError`.
    pub fn derive_hpke_keypair(&self, ciphersuite: Ciphersuite, ikm: &[u8]) -> (r: Result<
        HpkeKeyPair,
        CryptoError,
    >)
        ensures
            keypair_of(r) == rustcrypto_derive_result(ciphersuite, ikm@) || (rustcrypto_hpke_suite(
                ciphersuite,
            ) is Some && r == Err::<HpkeKeyPair, CryptoError>(CryptoError::CryptoLibraryError)),
            r matches Ok(kp) ==> (rustcrypto_hpke_suite(ciphersuite) matches Some(s)
                && dh_kem_key_lengths(s.kem) matches Some(l) ==> kp.private@.len() == l.0
                && kp.public@.len() == l.1),
            r matches Ok(kp) ==> (suite_kem(ciphersuite) matches Some(k) && dh_kem_key_lengths(k) matches Some(
                l,
            ) ==> kp.private@.len() == l.0 && kp.public@.len() == l.1),
    {
        let suite = hpke_from_ciphersuite(ciphersuite)?;
        match rustcrypto_hpke_derive_key_pair(suite, ikm) {
            Ok((private, public)) => Ok(HpkeKeyPair { private: HpkePrivateKey::from(private), public }),
            Err(HpkeFailure::InvalidInput) => Err(CryptoError::InvalidLength),
            Err(_) => Err(CryptoError::CryptoLibraryError),
        }
    }

    /// `N` random bytes from the provider's generator; a poisoned lock
    /// gives `LockPoisoned`, a provider without a generator
    /// `NotEnoughRandomness`.
    pub fn random_array<const N: usize>(&self) -> (r: Result<[u8; N], RandError>)
        ensures
            !self.is_seeded() ==> r == Err::<[u8; N], RandError>(RandError::NotEnoughRandomness),
            self.is_seeded() && r is Err ==> r == Err::<[u8; N], RandError>(RandError::LockPoisoned),
    {
        let lock = match &self.rng {
            None => return Err(RandError::NotEnoughRandomness),
            Some(lock) => lock,
        };
        match rwlock_write(lock) {
            None => Err(RandError::LockPoisoned),
            Some(mut guard) => {
                let mut out = [0u8; N];
                if fill_from_guard(&mut guard, &mut out) {
                    Ok(out)
                } else {
                    Err(RandError::NotEnoughRandomness)
                }
            },
        }
    }

    /// `len` random bytes from the provider's generator; a poisoned lock
    /// gives `LockPoisoned`, a provider without a generator
    /// `NotEnoughRandomness`.
    pub fn random_vec(&self, len: usize) -> (r: Result<Vec<u8>, RandError>)
        ensures
            r matches Ok(v) ==> v@.len() == len,
            !self.is_seeded() ==> r == Err::<Vec<u8>, RandError>(RandError::NotEnoughRandomness),
            self.is_seeded() && r is Err ==> r == Err::<Vec<u8>, RandError>(RandError::LockPoisoned),
    {
        let lock = match &self.rng {
            None => return Err(RandError::NotEnoughRandomness),
            Some(lock) => lock,
        };
        match rwlock_write(lock) {
            None => Err(RandError::LockPoisoned),
            Some(mut guard) => {
                let mut out = vec![0u8; len];
                if fill_from_guard(&mut guard, out.as_mut_slice()) {
                    Ok(out)
                } else {
                    Err(RandError::NotEnoughRandomness)
                }
            },
        }
    }
}

} // verus!
