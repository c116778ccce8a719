//! The calls into `hpke-rs`, once with its RustCrypto backend and once with
//! its libcrux backend, and the conversions of this library's algorithm
//! values into the identifiers of `hpke-rs-crypto`. Each HPKE call builds a
//! base-mode `Hpke` instance for the suite with `Hpke::try_new` (which fails
//! only where the backend's generator cannot be seeded) and then makes the
//! call.
use vstd::prelude::*;
use crate::algorithms::{
    AeadId, HpkeFailure, HpkeStageFailure, HpkeSuite, KdfId, KemId, bytes_of,
    dh_kem_key_lengths, pair_of,
};

verus! {

/// The KEM identifiers of `hpke-rs-crypto`.
#[verifier::external_type_specification]
#[verifier::external_body]
pub struct ExHpkeKemId(hpke_rs_crypto::types::KemAlgorithm);

/// The KDF identifiers of `hpke-rs-crypto`.
#[verifier::external_type_specification]
#[verifier::external_body]
pub struct ExHpkeKdfId(hpke_rs_crypto::types::KdfAlgorithm);

/// The AEAD identifiers of `hpke-rs-crypto`.
#[verifier::external_type_specification]
#[verifier::external_body]
pub struct ExHpkeAeadId(hpke_rs_crypto::types::AeadAlgorithm);

/// The error type of `hpke-rs`.
#[verifier::external_type_specification]
#[verifier::external_body]
pub struct ExHpkeError(hpke_rs::HpkeError);

/// Converts a KEM of this library into the `hpke-rs-crypto` identifier of
/// the same name, variant for variant.
#[verifier::external_body]
pub(crate) fn hpke_kem_id(kem: KemId) -> hpke_rs_crypto::types::KemAlgorithm {
    match kem {
        KemId::DhKemP256 => hpke_rs_crypto::types::KemAlgorithm::DhKemP256,
        KemId::DhKemP384 => hpke_rs_crypto::types::KemAlgorithm::DhKemP384,
        KemId::DhKemP521 => hpke_rs_crypto::types::KemAlgorithm::DhKemP521,
        KemId::DhKem25519 => hpke_rs_crypto::types::KemAlgorithm::DhKem25519,
        KemId::DhKem448 => hpke_rs_crypto::types::KemAlgorithm::DhKem448,
        KemId::XWingDraft06 => hpke_rs_crypto::types::KemAlgorithm::XWingDraft06,
    }
}

/// Converts a KDF of this library into the `hpke-rs-crypto` identifier of
/// the same name, variant for variant.
#[verifier::external_body]
pub(crate) fn hpke_kdf_id(kdf: KdfId) -> hpke_rs_crypto::types::KdfAlgorithm {
    match kdf {
        KdfId::HkdfSha256 => hpke_rs_crypto::types::KdfAlgorithm::HkdfSha256,
        KdfId::HkdfSha384 => hpke_rs_crypto::types::KdfAlgorithm::HkdfSha384,
        KdfId::HkdfSha512 => hpke_rs_crypto::types::KdfAlgorithm::HkdfSha512,
    }
}

/// Converts an AEAD of this library into the `hpke-rs-crypto` identifier of
/// the same name, variant for variant.
#[verifier::external_body]
pub(crate) fn hpke_aead_id(aead: AeadId) -> hpke_rs_crypto::types::AeadAlgorithm {
    match aead {
        AeadId::Aes128Gcm => hpke_rs_crypto::types::AeadAlgorithm::Aes128Gcm,
        AeadId::Aes256Gcm => hpke_rs_crypto::types::AeadAlgorithm::Aes256Gcm,
        AeadId::ChaCha20Poly1305 => hpke_rs_crypto::types::AeadAlgorithm::ChaCha20Poly1305,
    }
}

/// Converts an `hpke_rs::HpkeError` into this library's failure kind:
/// `InvalidConfig` and `InvalidInput` to their namesakes, every other
/// variant to `Other`.
#[verifier::external_body]
pub(crate) fn hpke_failure(e: hpke_rs::HpkeError) -> HpkeFailure {
    match e {
        hpke_rs::HpkeError::InvalidConfig => HpkeFailure::InvalidConfig,
        hpke_rs::HpkeError::InvalidInput => HpkeFailure::InvalidInput,
        _ => HpkeFailure::Other,
    }
}

/// The outcome of single-shot HPKE open in base mode that `hpke-rs` with the
/// RustCrypto backend computes.
pub uninterp spec fn rustcrypto_hpke_opened(suite: HpkeSuite, enc: Seq<u8>, sk_r: Seq<u8>, info: Seq<u8>, aad: Seq<u8>, ct: Seq<u8>) -> Result<Seq<u8>, HpkeFailure>;

/// The outcome of setting up an HPKE receiver in base mode and exporting a
/// secret of a given length, as `hpke-rs` with the RustCrypto backend computes it.
pub uninterp spec fn rustcrypto_hpke_receiver_secret(suite: HpkeSuite, enc: Seq<u8>, sk_r: Seq<u8>, info: Seq<u8>, exporter_context: Seq<u8>, length: nat) -> Result<Seq<u8>, HpkeStageFailure>;

/// The key pair (private, public) that `hpke-rs` with the RustCrypto backend
/// derives from input keying material, or the failure.
pub uninterp spec fn rustcrypto_hpke_derived_key_pair(suite: HpkeSuite, ikm: Seq<u8>) -> Result<(Seq<u8>, Seq<u8>), HpkeFailure>;

/// Calls `Hpke::<hpke_rs_rust_crypto::HpkeRustCrypto>::seal` (single-shot, base mode) to the encoded
/// public key `pk_r`. The KEM output and the ciphertext depend on the
/// instance's generator; the ciphertext carries the 16-byte AEAD tag, and
/// for X25519 and P-256 the KEM output is an encoded public key. For the
/// Diffie-Hellman KEMs, as HPKE guarantees, opening them with the private
/// key of a key pair that `derive_key_pair` gave for `pk_r` yields the
/// plaintext; not so for X-Wing, whose ML-KEM decapsulation fails for a
/// vanishing fraction of key and randomness pairs.
#[verifier::external_body]
pub(crate) fn rustcrypto_hpke_seal(suite: HpkeSuite, pk_r: &[u8], info: &[u8], aad: &[u8], ptxt: &[u8]) -> (r: Result<(Vec<u8>, Vec<u8>), HpkeFailure>)
    ensures
        r matches Ok(out) ==> out.1@.len() == ptxt@.len() + 16,
        r matches Ok(out) ==> (dh_kem_key_lengths(suite.kem) matches Some(l) ==> out.0@.len() == l.1),
        (r matches Ok(out) ==> suite.kem != KemId::XWingDraft06 ==> forall|ikm: Seq<u8>, sk: Seq<u8>|
            #![trigger rustcrypto_hpke_derived_key_pair(suite, ikm), rustcrypto_hpke_opened(suite, out.0@, sk, info@, aad@, out.1@)]
            rustcrypto_hpke_derived_key_pair(suite, ikm) == Ok::<(Seq<u8>, Seq<u8>), HpkeFailure>((sk, pk_r@))
                ==> rustcrypto_hpke_opened(suite, out.0@, sk, info@, aad@, out.1@) == Ok::<Seq<u8>, HpkeFailure>(ptxt@)),
{
    let mut hpke = hpke_rs::Hpke::<hpke_rs_rust_crypto::HpkeRustCrypto>::try_new(hpke_rs::Mode::Base, hpke_kem_id(suite.kem), hpke_kdf_id(suite.kdf), hpke_aead_id(suite.aead))
        .map_err(|_| HpkeFailure::Unavailable)?;
    hpke.seal(&pk_r.into(), info, aad, ptxt, None, None, None).map_err(hpke_failure)
}

/// Calls `Hpke::<hpke_rs_rust_crypto::HpkeRustCrypto>::open` (single-shot, base mode); apart from a
/// failure to build the instance, the outcome is `rustcrypto_hpke_opened`.
#[verifier::external_body]
pub(crate) fn rustcrypto_hpke_open(suite: HpkeSuite, enc: &[u8], sk_r: &[u8], info: &[u8], aad: &[u8], ct: &[u8]) -> (r: Result<Vec<u8>, HpkeFailure>)
    ensures
        (r == Err::<Vec<u8>, HpkeFailure>(HpkeFailure::Unavailable) || bytes_of(r) == rustcrypto_hpke_opened(suite, enc@, sk_r@, info@, aad@, ct@)),
{
    let hpke = hpke_rs::Hpke::<hpke_rs_rust_crypto::HpkeRustCrypto>::try_new(hpke_rs::Mode::Base, hpke_kem_id(suite.kem), hpke_kdf_id(suite.kdf), hpke_aead_id(suite.aead))
        .map_err(|_| HpkeFailure::Unavailable)?;
    hpke.open(enc, &sk_r.into(), info, aad, ct, None, None, None).map_err(hpke_failure)
}

/// Calls `Hpke::<hpke_rs_rust_crypto::HpkeRustCrypto>::setup_sender` (base mode) and `Context::export`,
/// reporting which of the two failed. The KEM output depends on the
/// instance's generator; the exported secret is `length` bytes long, and
/// for X25519 and P-256 the KEM output is an encoded public key. For the
/// Diffie-Hellman KEMs, as HPKE guarantees, a receiver set up from the KEM
/// output with the private key of a key pair that `derive_key_pair` gave
/// for `pk_r` exports the same secret; not so for X-Wing, whose ML-KEM
/// decapsulation fails for a vanishing fraction of key and randomness
/// pairs.
#[verifier::external_body]
pub(crate) fn rustcrypto_hpke_sender_export(suite: HpkeSuite, pk_r: &[u8], info: &[u8], exporter_context: &[u8], length: usize) -> (r: Result<(Vec<u8>, Vec<u8>), HpkeStageFailure>)
    ensures
        r matches Ok(out) ==> out.1@.len() == length,
        r matches Ok(out) ==> (dh_kem_key_lengths(suite.kem) matches Some(l) ==> out.0@.len() == l.1),
        (r matches Ok(out) ==> suite.kem != KemId::XWingDraft06 ==> forall|ikm: Seq<u8>, sk: Seq<u8>|
            #![trigger rustcrypto_hpke_derived_key_pair(suite, ikm), rustcrypto_hpke_receiver_secret(suite, out.0@, sk, info@, exporter_context@, length as nat)]
            rustcrypto_hpke_derived_key_pair(suite, ikm) == Ok::<(Seq<u8>, Seq<u8>), HpkeFailure>((sk, pk_r@))
                ==> rustcrypto_hpke_receiver_secret(suite, out.0@, sk, info@, exporter_context@, length as nat) == Ok::<Seq<u8>, HpkeStageFailure>(out.1@)),
{
    let mut hpke = hpke_rs::Hpke::<hpke_rs_rust_crypto::HpkeRustCrypto>::try_new(hpke_rs::Mode::Base, hpke_kem_id(suite.kem), hpke_kdf_id(suite.kdf), hpke_aead_id(suite.aead))
        .map_err(|_| HpkeStageFailure::Unavailable)?;
    let (enc, ctx) = hpke.setup_sender(&pk_r.into(), info, None, None, None).map_err(|_| HpkeStageFailure::Setup)?;
    Ok((enc, ctx.export(exporter_context, length).map_err(|_| HpkeStageFailure::Export)?))
}

/// Calls `Hpke::<hpke_rs_rust_crypto::HpkeRustCrypto>::setup_receiver` (base mode) and `Context::export`;
/// apart from a failure to build the instance, the outcome is
/// `rustcrypto_hpke_receiver_secret`, and the secret is `length` bytes long.
#[verifier::external_body]
pub(crate) fn rustcrypto_hpke_receiver_export(suite: HpkeSuite, enc: &[u8], sk_r: &[u8], info: &[u8], exporter_context: &[u8], length: usize) -> (r: Result<Vec<u8>, HpkeStageFailure>)
    ensures
        (r == Err::<Vec<u8>, HpkeStageFailure>(HpkeStageFailure::Unavailable) || bytes_of(r) == rustcrypto_hpke_receiver_secret(suite, enc@, sk_r@, info@, exporter_context@, length as nat)),
        r matches Ok(s) ==> s@.len() == length,
{
    let hpke = hpke_rs::Hpke::<hpke_rs_rust_crypto::HpkeRustCrypto>::try_new(hpke_rs::Mode::Base, hpke_kem_id(suite.kem), hpke_kdf_id(suite.kdf), hpke_aead_id(suite.aead))
        .map_err(|_| HpkeStageFailure::Unavailable)?;
    let ctx = hpke.setup_receiver(enc, &sk_r.into(), info, None, None, None).map_err(|_| HpkeStageFailure::Setup)?;
    ctx.export(exporter_context, length).map_err(|_| HpkeStageFailure::Export)
}

/// Calls `Hpke::<hpke_rs_rust_crypto::HpkeRustCrypto>::derive_key_pair` and `HpkeKeyPair::into_keys`;
/// apart from a failure to build the instance, the outcome is
/// `rustcrypto_hpke_derived_key_pair`. X25519 keys are 32 bytes each; a
/// P-256 key pair is a 32-byte scalar and a 65-byte uncompressed point.
#[verifier::external_body]
pub(crate) fn rustcrypto_hpke_derive_key_pair(suite: HpkeSuite, ikm: &[u8]) -> (r: Result<(Vec<u8>, Vec<u8>), HpkeFailure>)
    ensures
        (r == Err::<(Vec<u8>, Vec<u8>), HpkeFailure>(HpkeFailure::Unavailable) || pair_of(r) == rustcrypto_hpke_derived_key_pair(suite, ikm@)),
        r matches Ok(p) ==> (dh_kem_key_lengths(suite.kem) matches Some(l) ==> p.0@.len() == l.0 && p.1@.len() == l.1),
{
    let hpke = hpke_rs::Hpke::<hpke_rs_rust_crypto::HpkeRustCrypto>::try_new(hpke_rs::Mode::Base, hpke_kem_id(suite.kem), hpke_kdf_id(suite.kdf), hpke_aead_id(suite.aead))
        .map_err(|_| HpkeFailure::Unavailable)?;
    let (sk, pk) = hpke.derive_key_pair(ikm).map_err(hpke_failure)?.into_keys();
    Ok((sk.as_slice().to_vec(), pk.as_slice().to_vec()))
}

/// The outcome of single-shot HPKE open in base mode that `hpke-rs` with the
/// libcrux backend computes.
pub uninterp spec fn libcrux_hpke_opened(suite: HpkeSuite, enc: Seq<u8>, sk_r: Seq<u8>, info: Seq<u8>, aad: Seq<u8>, ct: Seq<u8>) -> Result<Seq<u8>, HpkeFailure>;

/// The outcome of setting up an HPKE receiver in base mode and exporting a
/// secret of a given length, as `hpke-rs` with the libcrux backend computes it.
pub uninterp spec fn libcrux_hpke_receiver_secret(suite: HpkeSuite, enc: Seq<u8>, sk_r: Seq<u8>, info: Seq<u8>, exporter_context: Seq<u8>, length: nat) -> Result<Seq<u8>, HpkeStageFailure>;

/// The key pair (private, public) that `hpke-rs` with the libcrux backend
/// derives from input keying material, or the failure.
pub uninterp spec fn libcrux_hpke_derived_key_pair(suite: HpkeSuite, ikm: Seq<u8>) -> Result<(Seq<u8>, Seq<u8>), HpkeFailure>;

/// Calls `Hpke::<hpke_rs_libcrux::HpkeLibcrux>::seal` (single-shot, base mode) to the encoded
/// public key `pk_r`. The KEM output and the ciphertext depend on the
/// instance's generator; the ciphertext carries the 16-byte AEAD tag, and
/// for X25519 and P-256 the KEM output is an encoded public key. For the
/// Diffie-Hellman KEMs, as HPKE guarantees, opening them with the private
/// key of a key pair that `derive_key_pair` gave for `pk_r` yields the
/// plaintext; not so for X-Wing, whose ML-KEM decapsulation fails for a
/// vanishing fraction of key and randomness pairs.
#[verifier::external_body]
pub(crate) fn libcrux_hpke_seal(suite: HpkeSuite, pk_r: &[u8], info: &[u8], aad: &[u8], ptxt: &[u8]) -> (r: Result<(Vec<u8>, Vec<u8>), HpkeFailure>)
    ensures
        r matches Ok(out) ==> out.1@.len() == ptxt@.len() + 16,
        r matches Ok(out) ==> (dh_kem_key_lengths(suite.kem) matches Some(l) ==> out.0@.len() == l.1),
        (r matches Ok(out) ==> suite.kem != KemId::XWingDraft06 ==> forall|ikm: Seq<u8>, sk: Seq<u8>|
            #![trigger libcrux_hpke_derived_key_pair(suite, ikm), libcrux_hpke_opened(suite, out.0@, sk, info@, aad@, out.1@)]
            libcrux_hpke_derived_key_pair(suite, ikm) == Ok::<(Seq<u8>, Seq<u8>), HpkeFailure>((sk, pk_r@))
                ==> libcrux_hpke_opened(suite, out.0@, sk, info@, aad@, out.1@) == Ok::<Seq<u8>, HpkeFailure>(ptxt@)),
{
    let mut hpke = hpke_rs::Hpke::<hpke_rs_libcrux::HpkeLibcrux>::try_new(hpke_rs::Mode::Base, hpke_kem_id(suite.kem), hpke_kdf_id(suite.kdf), hpke_aead_id(suite.aead))
        .map_err(|_| HpkeFailure::Unavailable)?;
    hpke.seal(&pk_r.into(), info, aad, ptxt, None, None, None).map_err(hpke_failure)
}

/// Calls `Hpke::<hpke_rs_libcrux::HpkeLibcrux>::open` (single-shot, base mode); apart from a
/// failure to build the instance, the outcome is `libcrux_hpke_opened`.
#[verifier::external_body]
pub(crate) fn libcrux_hpke_open(suite: HpkeSuite, enc: &[u8], sk_r: &[u8], info: &[u8], aad: &[u8], ct: &[u8]) -> (r: Result<Vec<u8>, HpkeFailure>)
    ensures
        (r == Err::<Vec<u8>, HpkeFailure>(HpkeFailure::Unavailable) || bytes_of(r) == libcrux_hpke_opened(suite, enc@, sk_r@, info@, aad@, ct@)),
{
    let hpke = hpke_rs::Hpke::<hpke_rs_libcrux::HpkeLibcrux>::try_new(hpke_rs::Mode::Base, hpke_kem_id(suite.kem), hpke_kdf_id(suite.kdf), hpke_aead_id(suite.aead))
        .map_err(|_| HpkeFailure::Unavailable)?;
    hpke.open(enc, &sk_r.into(), info, aad, ct, None, None, None).map_err(hpke_failure)
}

/// Calls `Hpke::<hpke_rs_libcrux::HpkeLibcrux>::setup_sender` (base mode) and `Context::export`,
/// reporting which of the two failed. The KEM output depends on the
/// instance's generator; the exported secret is `length` bytes long, and
/// for X25519 and P-256 the KEM output is an encoded public key. For the
/// Diffie-Hellman KEMs, as HPKE guarantees, a receiver set up from the KEM
/// output with the private key of a key pair that `derive_key_pair` gave
/// for `pk_r` exports the same secret; not so for X-Wing, whose ML-KEM
/// decapsulation fails for a vanishing fraction of key and randomness
/// pairs.
#[verifier::external_body]
pub(crate) fn libcrux_hpke_sender_export(suite: HpkeSuite, pk_r: &[u8], info: &[u8], exporter_context: &[u8], length: usize) -> (r: Result<(Vec<u8>, Vec<u8>), HpkeStageFailure>)
    ensures
        r matches Ok(out) ==> out.1@.len() == length,
        r matches Ok(out) ==> (dh_kem_key_lengths(suite.kem) matches Some(l) ==> out.0@.len() == l.1),
        (r matches Ok(out) ==> suite.kem != KemId::XWingDraft06 ==> forall|ikm: Seq<u8>, sk: Seq<u8>|
            #![trigger libcrux_hpke_derived_key_pair(suite, ikm), libcrux_hpke_receiver_secret(suite, out.0@, sk, info@, exporter_context@, length as nat)]
            libcrux_hpke_derived_key_pair(suite, ikm) == Ok::<(Seq<u8>, Seq<u8>), HpkeFailure>((sk, pk_r@))
                ==> libcrux_hpke_receiver_secret(suite, out.0@, sk, info@, exporter_context@, length as nat) == Ok::<Seq<u8>, HpkeStageFailure>(out.1@)),
{
    let mut hpke = hpke_rs::Hpke::<hpke_rs_libcrux::HpkeLibcrux>::try_new(hpke_rs::Mode::Base, hpke_kem_id(suite.kem), hpke_kdf_id(suite.kdf), hpke_aead_id(suite.aead))
        .map_err(|_| HpkeStageFailure::Unavailable)?;
    let (enc, ctx) = hpke.setup_sender(&pk_r.into(), info, None, None, None).map_err(|_| HpkeStageFailure::Setup)?;
    Ok((enc, ctx.export(exporter_context, length).map_err(|_| HpkeStageFailure::Export)?))
}

/// Calls `Hpke::<hpke_rs_libcrux::HpkeLibcrux>::setup_receiver` (base mode) and `Context::export`;
/// apart from a failure to build the instance, the outcome is
/// `libcrux_hpke_receiver_secret`, and the secret is `length` bytes long.
#[verifier::external_body]
pub(crate) fn libcrux_hpke_receiver_export(suite: HpkeSuite, enc: &[u8], sk_r: &[u8], info: &[u8], exporter_context: &[u8], length: usize) -> (r: Result<Vec<u8>, HpkeStageFailure>)
    ensures
        (r == Err::<Vec<u8>, HpkeStageFailure>(HpkeStageFailure::Unavailable) || bytes_of(r) == libcrux_hpke_receiver_secret(suite, enc@, sk_r@, info@, exporter_context@, length as nat)),
        r matches Ok(s) ==> s@.len() == length,
{
    let hpke = hpke_rs::Hpke::<hpke_rs_libcrux::HpkeLibcrux>::try_new(hpke_rs::Mode::Base, hpke_kem_id(suite.kem), hpke_kdf_id(suite.kdf), hpke_aead_id(suite.aead))
        .map_err(|_| HpkeStageFailure::Unavailable)?;
    let ctx = hpke.setup_receiver(enc, &sk_r.into(), info, None, None, None).map_err(|_| HpkeStageFailure::Setup)?;
    ctx.export(exporter_context, length).map_err(|_| HpkeStageFailure::Export)
}

/// Calls `Hpke::<hpke_rs_libcrux::HpkeLibcrux>::derive_key_pair` and `HpkeKeyPair::into_keys`;
/// apart from a failure to build the instance, the outcome is
/// `libcrux_hpke_derived_key_pair`. X25519 keys are 32 bytes each; a
/// P-256 key pair is a 32-byte scalar and a 65-byte uncompressed point.
#[verifier::external_body]
pub(crate) fn libcrux_hpke_derive_key_pair(suite: HpkeSuite, ikm: &[u8]) -> (r: Result<(Vec<u8>, Vec<u8>), HpkeFailure>)
    ensures
        (r == Err::<(Vec<u8>, Vec<u8>), HpkeFailure>(HpkeFailure::Unavailable) || pair_of(r) == libcrux_hpke_derived_key_pair(suite, ikm@)),
        r matches Ok(p) ==> (dh_kem_key_lengths(suite.kem) matches Some(l) ==> p.0@.len() == l.0 && p.1@.len() == l.1),
{
    let hpke = hpke_rs::Hpke::<hpke_rs_libcrux::HpkeLibcrux>::try_new(hpke_rs::Mode::Base, hpke_kem_id(suite.kem), hpke_kdf_id(suite.kdf), hpke_aead_id(suite.aead))
        .map_err(|_| HpkeFailure::Unavailable)?;
    let (sk, pk) = hpke.derive_key_pair(ikm).map_err(hpke_failure)?.into_keys();
    Ok((sk.as_slice().to_vec(), pk.as_slice().to_vec()))
}

} // verus!
