//! The calls into the libcrux crates (`libcrux-sha2`, `libcrux-hmac`,
//! `libcrux-hkdf`, `libcrux-aead` with `libcrux-traits`, `libcrux-ed25519`).
//! Each function here is trusted: its contract restates what the called
//! crate documents or its source shows, and names the results that only the
//! crate computes.
use vstd::prelude::*;
use crate::algorithms::{
    AeadCallFailure, AeadId, HashAlgorithm, HkdfExpandFailure, HkdfExtractFailure,
    SignatureFailure, aead_key_len, digest_length,
};
use crate::rustcrypto_calls::{rustcrypto_sha256, rustcrypto_sha384, rustcrypto_sha512};
use crate::rust_crypto::{rustcrypto_expand, rustcrypto_seal};
use crate::rustcrypto_hmac::rustcrypto_hmac_tag;

verus! {

/// The SHA-256 digest that `libcrux-sha2` computes.
pub uninterp spec fn libcrux_sha256(data: Seq<u8>) -> Seq<u8>;

/// Calls `libcrux_sha2::sha256`, which panics for input longer than
/// `u32::MAX` bytes (hence the `requires`): the 32-byte digest, which is
/// the SHA-256 digest of FIPS 180-4 that `sha2` computes as well.
#[verifier::external_body]
pub(crate) fn sha256_digest(data: &[u8]) -> (d: Vec<u8>)
    requires
        data@.len() <= u32::MAX,
    ensures
        d@ == libcrux_sha256(data@),
        d@.len() == 32,
        d@ == rustcrypto_sha256(data@),
{
    libcrux_sha2::sha256(data).to_vec()
}

/// The SHA-384 digest that `libcrux-sha2` computes.
pub uninterp spec fn libcrux_sha384(data: Seq<u8>) -> Seq<u8>;

/// Calls `libcrux_sha2::sha384`, which panics for input longer than
/// `u32::MAX` bytes (hence the `requires`): the 48-byte digest, which is
/// the SHA-384 digest of FIPS 180-4 that `sha2` computes as well.
#[verifier::external_body]
pub(crate) fn sha384_digest(data: &[u8]) -> (d: Vec<u8>)
    requires
        data@.len() <= u32::MAX,
    ensures
        d@ == libcrux_sha384(data@),
        d@.len() == 48,
        d@ == rustcrypto_sha384(data@),
{
    libcrux_sha2::sha384(data).to_vec()
}

/// The SHA-512 digest that `libcrux-sha2` computes.
pub uninterp spec fn libcrux_sha512(data: Seq<u8>) -> Seq<u8>;

/// Calls `libcrux_sha2::sha512`, which panics for input longer than
/// `u32::MAX` bytes (hence the `requires`): the 64-byte digest, which is
/// the SHA-512 digest of FIPS 180-4 that `sha2` computes as well.
#[verifier::external_body]
pub(crate) fn sha512_digest(data: &[u8]) -> (d: Vec<u8>)
    requires
        data@.len() <= u32::MAX,
    ensures
        d@ == libcrux_sha512(data@),
        d@.len() == 64,
        d@ == rustcrypto_sha512(data@),
{
    libcrux_sha2::sha512(data).to_vec()
}

/// The HMAC tag that `libcrux-hmac` computes over a SHA-2 hash function.
pub uninterp spec fn libcrux_hmac_tag(alg: HashAlgorithm, key: Seq<u8>, data: Seq<u8>) -> Seq<u8>;

/// Calls `libcrux_hmac::hmac` with a tag buffer of the full digest length,
/// which it overwrites with the tag. The call panics where the key or the
/// data is longer than `u32::MAX` bytes (hence the `requires`). The tag is
/// the HMAC of RFC 2104 that the `hmac` crate computes as well.
#[verifier::external_body]
pub(crate) fn hmac_into(alg: HashAlgorithm, key: &[u8], data: &[u8], tag: &mut Vec<u8>)
    requires
        key@.len() <= u32::MAX,
        data@.len() <= u32::MAX,
        old(tag)@.len() == digest_length(alg),
    ensures
        final(tag)@ == libcrux_hmac_tag(alg, key@, data@),
        final(tag)@.len() == digest_length(alg),
        final(tag)@ == rustcrypto_hmac_tag(alg, key@, data@),
{
    let alg = match alg {
        HashAlgorithm::Sha256 => libcrux_hmac::Algorithm::Sha256,
        HashAlgorithm::Sha384 => libcrux_hmac::Algorithm::Sha384,
        HashAlgorithm::Sha512 => libcrux_hmac::Algorithm::Sha512,
    };
    libcrux_hmac::hmac(alg, key, data, tag.as_mut_slice())
}

/// The HKDF-Extract pseudorandom key that `libcrux-hkdf` computes.
pub uninterp spec fn libcrux_hkdf_prk(alg: HashAlgorithm, salt: Seq<u8>, ikm: Seq<u8>) -> Seq<u8>;

/// Calls `libcrux_hkdf::extract` into a buffer of the digest length. It
/// fails with `ArgumentTooLong` exactly when the salt or the input keying
/// material is longer than `u32::MAX` bytes (`PrkTooShort` cannot occur for
/// such a buffer, and `Unknown` is unreachable in its source). As HKDF
/// defines it, the key is the HMAC tag of `ikm` under the key `salt`.
#[verifier::external_body]
pub(crate) fn hkdf_extract_into(alg: HashAlgorithm, prk: &mut Vec<u8>, salt: &[u8], ikm: &[u8]) -> (r: Result<(), HkdfExtractFailure>)
    requires
        old(prk)@.len() == digest_length(alg),
    ensures
        final(prk)@.len() == old(prk)@.len(),
        (r == Err::<(), HkdfExtractFailure>(HkdfExtractFailure::ArgumentTooLong)) <==> (salt@.len() > u32::MAX || ikm@.len() > u32::MAX),
        (r is Err ==> r == Err::<(), HkdfExtractFailure>(HkdfExtractFailure::ArgumentTooLong)),
        r is Ok ==> final(prk)@ == libcrux_hkdf_prk(alg, salt@, ikm@),
        r is Ok ==> final(prk)@ == libcrux_hmac_tag(alg, salt@, ikm@),
{
    let alg = match alg {
        HashAlgorithm::Sha256 => libcrux_hkdf::Algorithm::Sha256,
        HashAlgorithm::Sha384 => libcrux_hkdf::Algorithm::Sha384,
        HashAlgorithm::Sha512 => libcrux_hkdf::Algorithm::Sha512,
    };
    libcrux_hkdf::extract(alg, prk.as_mut_slice(), salt, ikm).map_err(|e| match e {
        libcrux_hkdf::ExtractError::PrkTooShort => HkdfExtractFailure::PrkTooShort,
        libcrux_hkdf::ExtractError::ArgumentTooLong => HkdfExtractFailure::ArgumentTooLong,
        libcrux_hkdf::ExtractError::Unknown => HkdfExtractFailure::Unknown,
    })
}

/// The HKDF-Expand output that `libcrux-hkdf` computes, of a given length.
pub uninterp spec fn libcrux_hkdf_okm(alg: HashAlgorithm, prk: Seq<u8>, info: Seq<u8>, len: nat) -> Seq<u8>;

/// Calls `libcrux_hkdf::expand` into `okm`. In order, it fails with
/// `PrkTooShort` where `prk` is shorter than the digest, with
/// `OutputTooLong` where `okm` is longer than 255 digests, and with
/// `ArgumentTooLong` where `info` is longer than `u32::MAX` bytes
/// (`Unknown` is unreachable in its source). As HKDF defines the output
/// block by block, a shorter output is a prefix of a longer one. HMAC is
/// keyed with the first digest-length bytes of `prk`, so for a `prk` of
/// exactly that length the output is the HKDF-Expand of RFC 5869 that the
/// `hkdf` crate computes as well.
#[verifier::external_body]
pub(crate) fn hkdf_expand_into(alg: HashAlgorithm, okm: &mut Vec<u8>, prk: &[u8], info: &[u8]) -> (r: Result<(), HkdfExpandFailure>)
    ensures
        final(okm)@.len() == old(okm)@.len(),
        (r == Err::<(), HkdfExpandFailure>(HkdfExpandFailure::PrkTooShort)) <==> prk@.len() < digest_length(alg),
        (r == Err::<(), HkdfExpandFailure>(HkdfExpandFailure::OutputTooLong)) <==> (prk@.len() >= digest_length(alg)
            && old(okm)@.len() > 255 * digest_length(alg)),
        (r == Err::<(), HkdfExpandFailure>(HkdfExpandFailure::ArgumentTooLong)) <==> (prk@.len() >= digest_length(alg)
            && old(okm)@.len() <= 255 * digest_length(alg) && info@.len() > u32::MAX),
        r is Ok <==> (prk@.len() >= digest_length(alg) && old(okm)@.len() <= 255 * digest_length(alg)
            && info@.len() <= u32::MAX),
        r is Ok ==> final(okm)@ == libcrux_hkdf_okm(alg, prk@, info@, old(okm)@.len()),
        r is Ok ==> forall|m: nat|
            m <= old(okm)@.len() ==> #[trigger] libcrux_hkdf_okm(alg, prk@, info@, m)
                == final(okm)@.take(m as int),
        r is Ok && prk@.len() == digest_length(alg) ==> final(okm)@ == rustcrypto_expand(
            alg,
            prk@,
            info@,
            old(okm)@.len(),
        ),
{
    let alg = match alg {
        HashAlgorithm::Sha256 => libcrux_hkdf::Algorithm::Sha256,
        HashAlgorithm::Sha384 => libcrux_hkdf::Algorithm::Sha384,
        HashAlgorithm::Sha512 => libcrux_hkdf::Algorithm::Sha512,
    };
    libcrux_hkdf::expand(alg, okm.as_mut_slice(), prk, info).map_err(|e| match e {
        libcrux_hkdf::ExpandError::OutputTooLong => HkdfExpandFailure::OutputTooLong,
        libcrux_hkdf::ExpandError::PrkTooShort => HkdfExpandFailure::PrkTooShort,
        libcrux_hkdf::ExpandError::ArgumentTooLong => HkdfExpandFailure::ArgumentTooLong,
        libcrux_hkdf::ExpandError::Unknown => HkdfExpandFailure::Unknown,
    })
}

/// The message and associated-data lengths that the AEADs of
/// `libcrux-aead` accept: for AES-GCM at most 2^36 - 32 and 2^61 - 1 bytes
/// (on 32-bit targets every length is accepted, and so within these), for
/// ChaCha20-Poly1305 at most `u32::MAX` bytes each.
pub open spec fn libcrux_aead_lengths_ok(alg: AeadId, aad_len: nat, msg_len: nat) -> bool {
    match alg {
        AeadId::ChaCha20Poly1305 => msg_len <= u32::MAX && aad_len <= u32::MAX,
        _ => msg_len <= 0xF_FFFF_FFE0 && aad_len <= 0x1FFF_FFFF_FFFF_FFFF,
    }
}

/// The outcome of the AEAD encryption call of `libcrux-aead` on inputs of
/// the right lengths: the ciphertext with the 16-byte tag appended, or why
/// the call refused.
pub uninterp spec fn libcrux_aead_sealed(alg: AeadId, key: Seq<u8>, nonce: Seq<u8>, aad: Seq<u8>, msg: Seq<u8>) -> Result<Seq<u8>, AeadCallFailure>;

/// The outcome of the AEAD decryption call of `libcrux-aead` on inputs of
/// the right lengths: the plaintext, or why the call refused.
pub uninterp spec fn libcrux_aead_opened(alg: AeadId, key: Seq<u8>, nonce: Seq<u8>, aad: Seq<u8>, ct: Seq<u8>, tag: Seq<u8>) -> Result<Seq<u8>, AeadCallFailure>;

/// Splits `out` after the message's length and calls, in this order,
/// `Aead::new_nonce`, `Aead::new_key` and `Aead::new_tag_mut` (each fails
/// exactly when its slice has the wrong length for the algorithm) and
/// `KeyRef::encrypt`, which writes the ciphertext and then the tag into
/// `out`; it refuses exactly the lengths outside `libcrux_aead_lengths_ok`.
/// The ciphertext and tag are those of the standard AEAD (AES-GCM of
/// NIST SP 800-38D, ChaCha20-Poly1305 of RFC 8439), which the RustCrypto
/// crates compute as well.
#[verifier::external_body]
pub(crate) fn aead_encrypt_into(alg: AeadId, key: &[u8], nonce: &[u8], aad: &[u8], msg: &[u8], out: &mut Vec<u8>) -> (r: Result<(), AeadCallFailure>)
    requires
        old(out)@.len() == msg@.len() + 16,
    ensures
        final(out)@.len() == old(out)@.len(),
        (r == Err::<(), AeadCallFailure>(AeadCallFailure::NonceLength)) <==> nonce@.len() != 12,
        (r == Err::<(), AeadCallFailure>(AeadCallFailure::KeyLength)) <==> (nonce@.len() == 12 && key@.len() != aead_key_len(alg)),
        (nonce@.len() == 12 && key@.len() == aead_key_len(alg) ==> match libcrux_aead_sealed(alg, key@, nonce@, aad@, msg@) {
            Ok(c) => r is Ok && final(out)@ == c,
            Err(e) => r == Err::<(), AeadCallFailure>(e) && (e == AeadCallFailure::AadTooLong || e
                == AeadCallFailure::Rejected),
        }),
        (nonce@.len() == 12 && key@.len() == aead_key_len(alg) ==> (r is Ok <==> libcrux_aead_lengths_ok(
            alg,
            aad@.len(),
            msg@.len(),
        ))),
        r is Ok ==> final(out)@ == rustcrypto_seal(alg, key@, nonce@, aad@, msg@),
{
    let alg = match alg {
        AeadId::Aes128Gcm => libcrux_aead::Aead::AesGcm128,
        AeadId::Aes256Gcm => libcrux_aead::Aead::AesGcm256,
        AeadId::ChaCha20Poly1305 => libcrux_aead::Aead::ChaCha20Poly1305,
    };
    let (ct, tag) = out.as_mut_slice().split_at_mut(msg.len());
    let nonce = libcrux_traits::aead::typed_refs::Aead::new_nonce(alg, nonce).map_err(|_| AeadCallFailure::NonceLength)?;
    let key = libcrux_traits::aead::typed_refs::Aead::new_key(alg, key).map_err(|_| AeadCallFailure::KeyLength)?;
    let tag = libcrux_traits::aead::typed_refs::Aead::new_tag_mut(alg, tag).map_err(|_| AeadCallFailure::TagLength)?;
    key.encrypt(ct, tag, nonce, aad, msg).map_err(|e| match e {
        libcrux_traits::aead::typed_refs::EncryptError::AadTooLong => AeadCallFailure::AadTooLong,
        _ => AeadCallFailure::Rejected,
    })
}

/// Calls, in this order, `Aead::new_nonce`, `Aead::new_key` and
/// `Aead::new_tag` (each fails exactly when its slice has the wrong length
/// for the algorithm) and `KeyRef::decrypt` into `out`. Decryption gives
/// back every message that the encryption call, or the same standard AEAD
/// in the RustCrypto crates, produced the ciphertext and tag of, under the
/// same algorithm, key, nonce and associated data.
#[verifier::external_body]
pub(crate) fn aead_decrypt_into(alg: AeadId, key: &[u8], nonce: &[u8], aad: &[u8], ct: &[u8], tag: &[u8], out: &mut Vec<u8>) -> (r: Result<(), AeadCallFailure>)
    requires
        old(out)@.len() == ct@.len(),
    ensures
        final(out)@.len() == old(out)@.len(),
        (r == Err::<(), AeadCallFailure>(AeadCallFailure::NonceLength)) <==> nonce@.len() != 12,
        (r == Err::<(), AeadCallFailure>(AeadCallFailure::KeyLength)) <==> (nonce@.len() == 12 && key@.len() != aead_key_len(alg)),
        (r == Err::<(), AeadCallFailure>(AeadCallFailure::TagLength)) <==> (nonce@.len() == 12 && key@.len() == aead_key_len(alg)
            && tag@.len() != 16),
        (nonce@.len() == 12 && key@.len() == aead_key_len(alg) && tag@.len() == 16 ==> match libcrux_aead_opened(alg, key@, nonce@, aad@, ct@, tag@) {
            Ok(p) => r is Ok && final(out)@ == p,
            Err(e) => r == Err::<(), AeadCallFailure>(e) && (e == AeadCallFailure::InvalidTag || e
                == AeadCallFailure::AadTooLong || e == AeadCallFailure::Rejected),
        }),
        (forall|m: Seq<u8>|
            nonce@.len() == 12 && key@.len() == aead_key_len(alg) && tag@.len() == 16
                && #[trigger] libcrux_aead_sealed(alg, key@, nonce@, aad@, m) == Ok::<Seq<u8>, AeadCallFailure>(ct@ + tag@)
                ==> r is Ok && final(out)@ == m),
        (forall|m: Seq<u8>|
            nonce@.len() == 12 && key@.len() == aead_key_len(alg) && tag@.len() == 16
                && libcrux_aead_lengths_ok(alg, aad@.len(), m.len())
                && #[trigger] rustcrypto_seal(alg, key@, nonce@, aad@, m) == ct@ + tag@
                ==> r is Ok && final(out)@ == m),
{
    let alg = match alg {
        AeadId::Aes128Gcm => libcrux_aead::Aead::AesGcm128,
        AeadId::Aes256Gcm => libcrux_aead::Aead::AesGcm256,
        AeadId::ChaCha20Poly1305 => libcrux_aead::Aead::ChaCha20Poly1305,
    };
    let nonce = libcrux_traits::aead::typed_refs::Aead::new_nonce(alg, nonce).map_err(|_| AeadCallFailure::NonceLength)?;
    let key = libcrux_traits::aead::typed_refs::Aead::new_key(alg, key).map_err(|_| AeadCallFailure::KeyLength)?;
    let tag = libcrux_traits::aead::typed_refs::Aead::new_tag(alg, tag).map_err(|_| AeadCallFailure::TagLength)?;
    key.decrypt(out.as_mut_slice(), nonce, aad, ct, tag).map_err(|e| match e {
        libcrux_traits::aead::typed_refs::DecryptError::InvalidTag => AeadCallFailure::InvalidTag,
        libcrux_traits::aead::typed_refs::DecryptError::AadTooLong => AeadCallFailure::AadTooLong,
        _ => AeadCallFailure::Rejected,
    })
}

/// The Ed25519 verification key that belongs to a signing key, as
/// `libcrux-ed25519` computes it.
pub uninterp spec fn libcrux_ed25519_public_key(sk: Seq<u8>) -> Seq<u8>;

/// Calls `libcrux_ed25519::generate_key_pair` on the locked generator and
/// encodes the 32-byte signing key and the 32-byte verification key. Which
/// key comes out is chance; the call fails with `KeyGen` only where no
/// valid key was drawn.
#[verifier::external_body]
pub(crate) fn ed25519_generate(
    guard: &mut std::sync::MutexGuard<'_, rand_chacha::ChaCha20Rng>,
) -> (r: Result<(Vec<u8>, Vec<u8>), SignatureFailure>)
    ensures
        r matches Ok(k) ==> k.0@.len() == 32 && k.1@.len() == 32,
        r matches Ok(k) ==> k.1@ == libcrux_ed25519_public_key(k.0@),
        (r is Err ==> r == Err::<(Vec<u8>, Vec<u8>), SignatureFailure>(SignatureFailure::KeyGeneration)),
{
    let (sk, pk) = libcrux_ed25519::generate_key_pair(&mut **guard).map_err(|_| SignatureFailure::KeyGeneration)?;
    Ok((sk.into_bytes().to_vec(), pk.into_bytes().to_vec()))
}

/// The 64-byte Ed25519 signature that `libcrux-ed25519` computes.
pub uninterp spec fn libcrux_ed25519_signature(key: Seq<u8>, data: Seq<u8>) -> Seq<u8>;

/// Calls `libcrux_ed25519::sign` with the 32-byte key; it fails with
/// `SigningError` exactly when the message is longer than `u32::MAX` bytes.
#[verifier::external_body]
pub(crate) fn ed25519_sign(data: &[u8], key: &[u8]) -> (r: Result<Vec<u8>, SignatureFailure>)
    requires
        key@.len() == 32,
    ensures
        (r == Err::<Vec<u8>, SignatureFailure>(SignatureFailure::InputTooLong)) <==> data@.len() > u32::MAX,
        (r is Err ==> r == Err::<Vec<u8>, SignatureFailure>(SignatureFailure::InputTooLong)),
        r matches Ok(s) ==> s@ == libcrux_ed25519_signature(key@, data@) && s@.len() == 64,
{
    libcrux_ed25519::sign(data, key.try_into().unwrap()).map(|s| s.to_vec()).map_err(|_| SignatureFailure::InputTooLong)
}

/// Whether `libcrux-ed25519` accepts a signature on a message under a key.
pub uninterp spec fn libcrux_ed25519_accepts(pk: Seq<u8>, data: Seq<u8>, sig: Seq<u8>) -> bool;

/// Calls `libcrux_ed25519::verify` with the 32-byte key and the 64-byte
/// signature: `SigningError` (here `InputTooLong`) exactly when the message
/// is longer than `u32::MAX` bytes, otherwise `InvalidSignature` (here
/// `Rejected`) where the signature does not verify. A signature that
/// `libcrux_ed25519::sign` made with a signing key verifies under that key's
/// verification key.
#[verifier::external_body]
pub(crate) fn ed25519_verify(data: &[u8], pk: &[u8], sig: &[u8]) -> (r: Result<(), SignatureFailure>)
    requires
        pk@.len() == 32,
        sig@.len() == 64,
    ensures
        (r == Err::<(), SignatureFailure>(SignatureFailure::InputTooLong)) <==> data@.len() > u32::MAX,
        (data@.len() <= u32::MAX ==> (r is Ok <==> libcrux_ed25519_accepts(pk@, data@, sig@))),
        (data@.len() <= u32::MAX ==> (r is Err ==> r == Err::<(), SignatureFailure>(SignatureFailure::Rejected))),
        (forall|sk: Seq<u8>|
            data@.len() <= u32::MAX && sk.len() == 32 && pk@ == libcrux_ed25519_public_key(sk) && sig@ == #[trigger] libcrux_ed25519_signature(sk, data@)
                ==> r is Ok),
{
    libcrux_ed25519::verify(data, pk.try_into().unwrap(), sig.try_into().unwrap()).map_err(|e| match e {
        libcrux_ed25519::Error::InvalidSignature => SignatureFailure::Rejected,
        _ => SignatureFailure::InputTooLong,
    })
}

} // verus!
