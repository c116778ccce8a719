//! The calls into the RustCrypto crates (`sha2`, `hmac`, `hkdf`, `aes-gcm`,
//! `chacha20poly1305`, `p256`, `ed25519-dalek`) and into `hpke-rs` with its
//! RustCrypto backend. Each function here is trusted: its contract restates
//! what the called crate documents or its source shows, and names the
//! results that only the crate computes.
use vstd::prelude::*;
use crate::algorithms::{
    AeadCallFailure, HkdfExpandFailure,
    SignatureFailure, bytes_of,
};

verus! {

/// The SHA-256 digest that `sha2` computes.
pub uninterp spec fn rustcrypto_sha256(data: Seq<u8>) -> Seq<u8>;

/// Calls `<sha2::Sha256 as sha2::Digest>::digest`: the 32-byte SHA-256
/// digest of `data`, named `rustcrypto_sha256`.
#[verifier::external_body]
pub(crate) fn sha256_digest(data: &[u8]) -> (d: Vec<u8>)
    ensures
        d@ == rustcrypto_sha256(data@),
        d@.len() == 32,
{
    <sha2::Sha256 as sha2::Digest>::digest(data).to_vec()
}

/// The HMAC-SHA-256 tag that `hmac` computes.
pub uninterp spec fn rustcrypto_hmac_sha256(key: Seq<u8>, message: Seq<u8>) -> Seq<u8>;

/// Calls `Hmac::<Sha256>::new_from_slice`, `Mac::update` and `Mac::finalize`:
/// the 32-byte HMAC-SHA-256 tag of `message` under `key`. HMAC accepts keys of
/// any length, so key setup never fails.
#[verifier::external_body]
pub(crate) fn hmac_sha256(key: &[u8], message: &[u8]) -> (r: Result<Vec<u8>, ()>)
    ensures
        r is Ok,
        r matches Ok(tag) ==> tag@ == rustcrypto_hmac_sha256(key@, message@) && tag@.len() == 32,
{
    let mut mac = <hmac::Hmac<sha2::Sha256> as hmac::KeyInit>::new_from_slice(key).map_err(|_| ())?;
    hmac::Mac::update(&mut mac, message);
    Ok(hmac::Mac::finalize(mac).into_bytes().to_vec())
}

/// The HKDF-Extract output over SHA-256 that `hkdf` computes.
pub uninterp spec fn rustcrypto_hkdf_sha256_extract(salt: Seq<u8>, ikm: Seq<u8>) -> Seq<u8>;

/// Calls `Hkdf::<Sha256>::extract(Some(salt), ikm)` and keeps the 32-byte
/// pseudorandom key, which is, as HKDF defines it, the HMAC-SHA-256 tag of
/// `ikm` under the key `salt`.
#[verifier::external_body]
pub(crate) fn hkdf_sha256_extract(salt: &[u8], ikm: &[u8]) -> (prk: Vec<u8>)
    ensures
        prk@ == rustcrypto_hkdf_sha256_extract(salt@, ikm@),
        prk@.len() == 32,
        prk@ == rustcrypto_hmac_sha256(salt@, ikm@),
{
    hkdf::Hkdf::<sha2::Sha256>::extract(Some(salt), ikm).0.to_vec()
}

/// The HKDF-Expand output over SHA-256 that `hkdf` computes, of a given length.
pub uninterp spec fn rustcrypto_hkdf_sha256_expand(prk: Seq<u8>, info: Seq<u8>, len: nat) -> Seq<u8>;

/// Calls `Hkdf::<Sha256>::from_prk` and `Hkdf::expand` into `okm`: the first
/// fails exactly when `prk` is shorter than 32 bytes, the second exactly when
/// `okm` is longer than 255 * 32 bytes; `okm` keeps its length. As HKDF
/// defines the output block by block, a shorter output is a prefix of a
/// longer one.
#[verifier::external_body]
pub(crate) fn hkdf_sha256_expand(prk: &[u8], info: &[u8], okm: &mut Vec<u8>) -> (r: Result<
    (),
    HkdfExpandFailure,
>)
    ensures
        final(okm)@.len() == old(okm)@.len(),
        (r == Err::<(), HkdfExpandFailure>(HkdfExpandFailure::PrkTooShort)) <==> prk@.len() < 32,
        (r == Err::<(), HkdfExpandFailure>(HkdfExpandFailure::OutputTooLong)) <==> (prk@.len()
            >= 32 && old(okm)@.len() > 255 * 32),
        r is Ok <==> (prk@.len() >= 32 && old(okm)@.len() <= 255 * 32),
        r is Ok ==> final(okm)@ == rustcrypto_hkdf_sha256_expand(prk@, info@, old(okm)@.len()),
        r is Ok ==> forall|m: nat|
            m <= old(okm)@.len() ==> #[trigger] rustcrypto_hkdf_sha256_expand(prk@, info@, m)
                == final(okm)@.take(m as int),
{
    let hkdf = hkdf::Hkdf::<sha2::Sha256>::from_prk(prk).map_err(|_| HkdfExpandFailure::PrkTooShort)?;
    hkdf.expand(info, okm.as_mut_slice()).map_err(|_| HkdfExpandFailure::OutputTooLong)
}

/// The SHA-384 digest that `sha2` computes.
pub uninterp spec fn rustcrypto_sha384(data: Seq<u8>) -> Seq<u8>;

/// Calls `<sha2::Sha384 as sha2::Digest>::digest`: the 48-byte SHA-384
/// digest of `data`, named `rustcrypto_sha384`.
#[verifier::external_body]
pub(crate) fn sha384_digest(data: &[u8]) -> (d: Vec<u8>)
    ensures
        d@ == rustcrypto_sha384(data@),
        d@.len() == 48,
{
    <sha2::Sha384 as sha2::Digest>::digest(data).to_vec()
}

/// The HMAC-SHA-384 tag that `hmac` computes.
pub uninterp spec fn rustcrypto_hmac_sha384(key: Seq<u8>, message: Seq<u8>) -> Seq<u8>;

/// Calls `Hmac::<Sha384>::new_from_slice`, `Mac::update` and `Mac::finalize`:
/// the 48-byte HMAC-SHA-384 tag of `message` under `key`. HMAC accepts keys of
/// any length, so key setup never fails.
#[verifier::external_body]
pub(crate) fn hmac_sha384(key: &[u8], message: &[u8]) -> (r: Result<Vec<u8>, ()>)
    ensures
        r is Ok,
        r matches Ok(tag) ==> tag@ == rustcrypto_hmac_sha384(key@, message@) && tag@.len() == 48,
{
    let mut mac = <hmac::Hmac<sha2::Sha384> as hmac::KeyInit>::new_from_slice(key).map_err(|_| ())?;
    hmac::Mac::update(&mut mac, message);
    Ok(hmac::Mac::finalize(mac).into_bytes().to_vec())
}

/// The HKDF-Extract output over SHA-384 that `hkdf` computes.
pub uninterp spec fn rustcrypto_hkdf_sha384_extract(salt: Seq<u8>, ikm: Seq<u8>) -> Seq<u8>;

/// Calls `Hkdf::<Sha384>::extract(Some(salt), ikm)` and keeps the 48-byte
/// pseudorandom key, which is, as HKDF defines it, the HMAC-SHA-384 tag of
/// `ikm` under the key `salt`.
#[verifier::external_body]
pub(crate) fn hkdf_sha384_extract(salt: &[u8], ikm: &[u8]) -> (prk: Vec<u8>)
    ensures
        prk@ == rustcrypto_hkdf_sha384_extract(salt@, ikm@),
        prk@.len() == 48,
        prk@ == rustcrypto_hmac_sha384(salt@, ikm@),
{
    hkdf::Hkdf::<sha2::Sha384>::extract(Some(salt), ikm).0.to_vec()
}

/// The HKDF-Expand output over SHA-384 that `hkdf` computes, of a given length.
pub uninterp spec fn rustcrypto_hkdf_sha384_expand(prk: Seq<u8>, info: Seq<u8>, len: nat) -> Seq<u8>;

/// Calls `Hkdf::<Sha384>::from_prk` and `Hkdf::expand` into `okm`: the first
/// fails exactly when `prk` is shorter than 48 bytes, the second exactly when
/// `okm` is longer than 255 * 48 bytes; `okm` keeps its length. As HKDF
/// defines the output block by block, a shorter output is a prefix of a
/// longer one.
#[verifier::external_body]
pub(crate) fn hkdf_sha384_expand(prk: &[u8], info: &[u8], okm: &mut Vec<u8>) -> (r: Result<
    (),
    HkdfExpandFailure,
>)
    ensures
        final(okm)@.len() == old(okm)@.len(),
        (r == Err::<(), HkdfExpandFailure>(HkdfExpandFailure::PrkTooShort)) <==> prk@.len() < 48,
        (r == Err::<(), HkdfExpandFailure>(HkdfExpandFailure::OutputTooLong)) <==> (prk@.len()
            >= 48 && old(okm)@.len() > 255 * 48),
        r is Ok <==> (prk@.len() >= 48 && old(okm)@.len() <= 255 * 48),
        r is Ok ==> final(okm)@ == rustcrypto_hkdf_sha384_expand(prk@, info@, old(okm)@.len()),
        r is Ok ==> forall|m: nat|
            m <= old(okm)@.len() ==> #[trigger] rustcrypto_hkdf_sha384_expand(prk@, info@, m)
                == final(okm)@.take(m as int),
{
    let hkdf = hkdf::Hkdf::<sha2::Sha384>::from_prk(prk).map_err(|_| HkdfExpandFailure::PrkTooShort)?;
    hkdf.expand(info, okm.as_mut_slice()).map_err(|_| HkdfExpandFailure::OutputTooLong)
}

/// The SHA-512 digest that `sha2` computes.
pub uninterp spec fn rustcrypto_sha512(data: Seq<u8>) -> Seq<u8>;

/// Calls `<sha2::Sha512 as sha2::Digest>::digest`: the 64-byte SHA-512
/// digest of `data`, named `rustcrypto_sha512`.
#[verifier::external_body]
pub(crate) fn sha512_digest(data: &[u8]) -> (d: Vec<u8>)
    ensures
        d@ == rustcrypto_sha512(data@),
        d@.len() == 64,
{
    <sha2::Sha512 as sha2::Digest>::digest(data).to_vec()
}

/// The HMAC-SHA-512 tag that `hmac` computes.
pub uninterp spec fn rustcrypto_hmac_sha512(key: Seq<u8>, message: Seq<u8>) -> Seq<u8>;

/// Calls `Hmac::<Sha512>::new_from_slice`, `Mac::update` and `Mac::finalize`:
/// the 64-byte HMAC-SHA-512 tag of `message` under `key`. HMAC accepts keys of
/// any length, so key setup never fails.
#[verifier::external_body]
pub(crate) fn hmac_sha512(key: &[u8], message: &[u8]) -> (r: Result<Vec<u8>, ()>)
    ensures
        r is Ok,
        r matches Ok(tag) ==> tag@ == rustcrypto_hmac_sha512(key@, message@) && tag@.len() == 64,
{
    let mut mac = <hmac::Hmac<sha2::Sha512> as hmac::KeyInit>::new_from_slice(key).map_err(|_| ())?;
    hmac::Mac::update(&mut mac, message);
    Ok(hmac::Mac::finalize(mac).into_bytes().to_vec())
}

/// The HKDF-Extract output over SHA-512 that `hkdf` computes.
pub uninterp spec fn rustcrypto_hkdf_sha512_extract(salt: Seq<u8>, ikm: Seq<u8>) -> Seq<u8>;

/// Calls `Hkdf::<Sha512>::extract(Some(salt), ikm)` and keeps the 64-byte
/// pseudorandom key, which is, as HKDF defines it, the HMAC-SHA-512 tag of
/// `ikm` under the key `salt`.
#[verifier::external_body]
pub(crate) fn hkdf_sha512_extract(salt: &[u8], ikm: &[u8]) -> (prk: Vec<u8>)
    ensures
        prk@ == rustcrypto_hkdf_sha512_extract(salt@, ikm@),
        prk@.len() == 64,
        prk@ == rustcrypto_hmac_sha512(salt@, ikm@),
{
    hkdf::Hkdf::<sha2::Sha512>::extract(Some(salt), ikm).0.to_vec()
}

/// The HKDF-Expand output over SHA-512 that `hkdf` computes, of a given length.
pub uninterp spec fn rustcrypto_hkdf_sha512_expand(prk: Seq<u8>, info: Seq<u8>, len: nat) -> Seq<u8>;

/// Calls `Hkdf::<Sha512>::from_prk` and `Hkdf::expand` into `okm`: the first
/// fails exactly when `prk` is shorter than 64 bytes, the second exactly when
/// `okm` is longer than 255 * 64 bytes; `okm` keeps its length. As HKDF
/// defines the output block by block, a shorter output is a prefix of a
/// longer one.
#[verifier::external_body]
pub(crate) fn hkdf_sha512_expand(prk: &[u8], info: &[u8], okm: &mut Vec<u8>) -> (r: Result<
    (),
    HkdfExpandFailure,
>)
    ensures
        final(okm)@.len() == old(okm)@.len(),
        (r == Err::<(), HkdfExpandFailure>(HkdfExpandFailure::PrkTooShort)) <==> prk@.len() < 64,
        (r == Err::<(), HkdfExpandFailure>(HkdfExpandFailure::OutputTooLong)) <==> (prk@.len()
            >= 64 && old(okm)@.len() > 255 * 64),
        r is Ok <==> (prk@.len() >= 64 && old(okm)@.len() <= 255 * 64),
        r is Ok ==> final(okm)@ == rustcrypto_hkdf_sha512_expand(prk@, info@, old(okm)@.len()),
        r is Ok ==> forall|m: nat|
            m <= old(okm)@.len() ==> #[trigger] rustcrypto_hkdf_sha512_expand(prk@, info@, m)
                == final(okm)@.take(m as int),
{
    let hkdf = hkdf::Hkdf::<sha2::Sha512>::from_prk(prk).map_err(|_| HkdfExpandFailure::PrkTooShort)?;
    hkdf.expand(info, okm.as_mut_slice()).map_err(|_| HkdfExpandFailure::OutputTooLong)
}

/// The message and associated-data lengths that AES-GCM in `aes-gcm` accepts:
/// at most 2^36 - 32 and 2^61 - 1 bytes.
pub open spec fn aes_gcm_lengths_ok(aad_len: nat, msg_len: nat) -> bool {
    msg_len <= 0xF_FFFF_FFE0 && aad_len <= 0x1FFF_FFFF_FFFF_FFFF
}

/// The message lengths that ChaCha20-Poly1305 in `chacha20poly1305` accepts:
/// fewer than `u32::MAX` blocks of 64 bytes.
pub open spec fn chacha_lengths_ok(aad_len: nat, msg_len: nat) -> bool {
    msg_len / 64 < 0xFFFF_FFFF
}

/// The AES-128-GCM ciphertext (with its tag appended) that `aes_gcm` computes.
pub uninterp spec fn rustcrypto_aes128gcm_seal(key: Seq<u8>, nonce: Seq<u8>, aad: Seq<u8>, msg: Seq<u8>) -> Seq<u8>;

/// The AES-128-GCM decryption that `aes_gcm` computes: the plaintext, or none
/// where the ciphertext does not authenticate.
pub uninterp spec fn rustcrypto_aes128gcm_open(key: Seq<u8>, nonce: Seq<u8>, aad: Seq<u8>, ct: Seq<u8>) -> Option<Seq<u8>>;

/// Calls `aes_gcm::Aes128Gcm::new_from_slice`, which fails exactly when the key is not
/// 16 bytes long, then `Aead::encrypt` with a nonce made by the panicking
/// `Array::from_slice` (hence the `requires`). Encryption fails exactly when
/// the lengths are out of the algorithm's range; the ciphertext is the
/// message's length plus the 16-byte tag.
#[verifier::external_body]
pub(crate) fn aes128gcm_seal(key: &[u8], nonce: &[u8], aad: &[u8], msg: &[u8]) -> (r: Result<Vec<u8>, AeadCallFailure>)
    requires
        key@.len() == 16 ==> nonce@.len() == 12,
    ensures
        (r matches Err(AeadCallFailure::KeyLength)) <==> key@.len() != 16,
        (r matches Err(AeadCallFailure::Rejected)) <==> (key@.len() == 16 && !aes_gcm_lengths_ok(aad@.len(), msg@.len())),
        r is Ok <==> (key@.len() == 16 && aes_gcm_lengths_ok(aad@.len(), msg@.len())),
        r matches Ok(ct) ==> ct@ == rustcrypto_aes128gcm_seal(key@, nonce@, aad@, msg@) && ct@.len() == msg@.len() + 16,
{
    let cipher = <aes_gcm::Aes128Gcm as aes_gcm::KeyInit>::new_from_slice(key).map_err(|_| AeadCallFailure::KeyLength)?;
    #[allow(deprecated)]
    let nonce = aes_gcm::aead::array::Array::from_slice(nonce);
    let payload = aes_gcm::aead::Payload { msg, aad };
    aes_gcm::aead::Aead::encrypt(&cipher, nonce, payload).map_err(|_| AeadCallFailure::Rejected)
}

/// Calls `aes_gcm::Aes128Gcm::new_from_slice`, which fails exactly when the key is not
/// 16 bytes long, then `Aead::decrypt` with a nonce made by the panicking
/// `Array::from_slice` (hence the `requires`). The plaintext is the
/// ciphertext without its 16-byte tag; decryption gives back any message
/// that encryption under the same key, nonce and associated data produced.
#[verifier::external_body]
pub(crate) fn aes128gcm_open(key: &[u8], nonce: &[u8], aad: &[u8], ct: &[u8]) -> (r: Result<Vec<u8>, AeadCallFailure>)
    requires
        key@.len() == 16 ==> nonce@.len() == 12,
    ensures
        (r matches Err(AeadCallFailure::KeyLength)) <==> key@.len() != 16,
        (key@.len() == 16 ==> match rustcrypto_aes128gcm_open(key@, nonce@, aad@, ct@) {
            Some(m) => bytes_of(r) == Ok::<Seq<u8>, AeadCallFailure>(m),
            None => r == Err::<Vec<u8>, AeadCallFailure>(AeadCallFailure::InvalidTag),
        }),
        r matches Ok(p) ==> p@.len() + 16 == ct@.len(),
        (forall|m: Seq<u8>|
            key@.len() == 16 && aes_gcm_lengths_ok(aad@.len(), m.len()) && ct@ == #[trigger] rustcrypto_aes128gcm_seal(key@, nonce@, aad@, m)
                ==> bytes_of(r) == Ok::<Seq<u8>, AeadCallFailure>(m)),
{
    let cipher = <aes_gcm::Aes128Gcm as aes_gcm::KeyInit>::new_from_slice(key).map_err(|_| AeadCallFailure::KeyLength)?;
    #[allow(deprecated)]
    let nonce = aes_gcm::aead::array::Array::from_slice(nonce);
    let payload = aes_gcm::aead::Payload { msg: ct, aad };
    aes_gcm::aead::Aead::decrypt(&cipher, nonce, payload).map_err(|_| AeadCallFailure::InvalidTag)
}

/// The AES-256-GCM ciphertext (with its tag appended) that `aes_gcm` computes.
pub uninterp spec fn rustcrypto_aes256gcm_seal(key: Seq<u8>, nonce: Seq<u8>, aad: Seq<u8>, msg: Seq<u8>) -> Seq<u8>;

/// The AES-256-GCM decryption that `aes_gcm` computes: the plaintext, or none
/// where the ciphertext does not authenticate.
pub uninterp spec fn rustcrypto_aes256gcm_open(key: Seq<u8>, nonce: Seq<u8>, aad: Seq<u8>, ct: Seq<u8>) -> Option<Seq<u8>>;

/// Calls `aes_gcm::Aes256Gcm::new_from_slice`, which fails exactly when the key is not
/// 32 bytes long, then `Aead::encrypt` with a nonce made by the panicking
/// `Array::from_slice` (hence the `requires`). Encryption fails exactly when
/// the lengths are out of the algorithm's range; the ciphertext is the
/// message's length plus the 16-byte tag.
#[verifier::external_body]
pub(crate) fn aes256gcm_seal(key: &[u8], nonce: &[u8], aad: &[u8], msg: &[u8]) -> (r: Result<Vec<u8>, AeadCallFailure>)
    requires
        key@.len() == 32 ==> nonce@.len() == 12,
    ensures
        (r matches Err(AeadCallFailure::KeyLength)) <==> key@.len() != 32,
        (r matches Err(AeadCallFailure::Rejected)) <==> (key@.len() == 32 && !aes_gcm_lengths_ok(aad@.len(), msg@.len())),
        r is Ok <==> (key@.len() == 32 && aes_gcm_lengths_ok(aad@.len(), msg@.len())),
        r matches Ok(ct) ==> ct@ == rustcrypto_aes256gcm_seal(key@, nonce@, aad@, msg@) && ct@.len() == msg@.len() + 16,
{
    let cipher = <aes_gcm::Aes256Gcm as aes_gcm::KeyInit>::new_from_slice(key).map_err(|_| AeadCallFailure::KeyLength)?;
    #[allow(deprecated)]
    let nonce = aes_gcm::aead::array::Array::from_slice(nonce);
    let payload = aes_gcm::aead::Payload { msg, aad };
    aes_gcm::aead::Aead::encrypt(&cipher, nonce, payload).map_err(|_| AeadCallFailure::Rejected)
}

/// Calls `aes_gcm::Aes256Gcm::new_from_slice`, which fails exactly when the key is not
/// 32 bytes long, then `Aead::decrypt` with a nonce made by the panicking
/// `Array::from_slice` (hence the `requires`). The plaintext is the
/// ciphertext without its 16-byte tag; decryption gives back any message
/// that encryption under the same key, nonce and associated data produced.
#[verifier::external_body]
pub(crate) fn aes256gcm_open(key: &[u8], nonce: &[u8], aad: &[u8], ct: &[u8]) -> (r: Result<Vec<u8>, AeadCallFailure>)
    requires
        key@.len() == 32 ==> nonce@.len() == 12,
    ensures
        (r matches Err(AeadCallFailure::KeyLength)) <==> key@.len() != 32,
        (key@.len() == 32 ==> match rustcrypto_aes256gcm_open(key@, nonce@, aad@, ct@) {
            Some(m) => bytes_of(r) == Ok::<Seq<u8>, AeadCallFailure>(m),
            None => r == Err::<Vec<u8>, AeadCallFailure>(AeadCallFailure::InvalidTag),
        }),
        r matches Ok(p) ==> p@.len() + 16 == ct@.len(),
        (forall|m: Seq<u8>|
            key@.len() == 32 && aes_gcm_lengths_ok(aad@.len(), m.len()) && ct@ == #[trigger] rustcrypto_aes256gcm_seal(key@, nonce@, aad@, m)
                ==> bytes_of(r) == Ok::<Seq<u8>, AeadCallFailure>(m)),
{
    let cipher = <aes_gcm::Aes256Gcm as aes_gcm::KeyInit>::new_from_slice(key).map_err(|_| AeadCallFailure::KeyLength)?;
    #[allow(deprecated)]
    let nonce = aes_gcm::aead::array::Array::from_slice(nonce);
    let payload = aes_gcm::aead::Payload { msg: ct, aad };
    aes_gcm::aead::Aead::decrypt(&cipher, nonce, payload).map_err(|_| AeadCallFailure::InvalidTag)
}

/// The ChaCha20-Poly1305 ciphertext (with its tag appended) that `chacha20poly1305` computes.
pub uninterp spec fn rustcrypto_chacha20poly1305_seal(key: Seq<u8>, nonce: Seq<u8>, aad: Seq<u8>, msg: Seq<u8>) -> Seq<u8>;

/// The ChaCha20-Poly1305 decryption that `chacha20poly1305` computes: the plaintext, or none
/// where the ciphertext does not authenticate.
pub uninterp spec fn rustcrypto_chacha20poly1305_open(key: Seq<u8>, nonce: Seq<u8>, aad: Seq<u8>, ct: Seq<u8>) -> Option<Seq<u8>>;

/// Calls `chacha20poly1305::ChaCha20Poly1305::new_from_slice`, which fails exactly when the key is not
/// 32 bytes long, then `Aead::encrypt` with a nonce made by the panicking
/// `Array::from_slice` (hence the `requires`). Encryption fails exactly when
/// the lengths are out of the algorithm's range; the ciphertext is the
/// message's length plus the 16-byte tag.
#[verifier::external_body]
pub(crate) fn chacha20poly1305_seal(key: &[u8], nonce: &[u8], aad: &[u8], msg: &[u8]) -> (r: Result<Vec<u8>, AeadCallFailure>)
    requires
        key@.len() == 32 ==> nonce@.len() == 12,
    ensures
        (r matches Err(AeadCallFailure::KeyLength)) <==> key@.len() != 32,
        (r matches Err(AeadCallFailure::Rejected)) <==> (key@.len() == 32 && !chacha_lengths_ok(aad@.len(), msg@.len())),
        r is Ok <==> (key@.len() == 32 && chacha_lengths_ok(aad@.len(), msg@.len())),
        r matches Ok(ct) ==> ct@ == rustcrypto_chacha20poly1305_seal(key@, nonce@, aad@, msg@) && ct@.len() == msg@.len() + 16,
{
    let cipher = <chacha20poly1305::ChaCha20Poly1305 as chacha20poly1305::KeyInit>::new_from_slice(key).map_err(|_| AeadCallFailure::KeyLength)?;
    #[allow(deprecated)]
    let nonce = chacha20poly1305::aead::array::Array::from_slice(nonce);
    let payload = chacha20poly1305::aead::Payload { msg, aad };
    chacha20poly1305::aead::Aead::encrypt(&cipher, nonce, payload).map_err(|_| AeadCallFailure::Rejected)
}

/// Calls `chacha20poly1305::ChaCha20Poly1305::new_from_slice`, which fails exactly when the key is not
/// 32 bytes long, then `Aead::decrypt` with a nonce made by the panicking
/// `Array::from_slice` (hence the `requires`). The plaintext is the
/// ciphertext without its 16-byte tag; decryption gives back any message
/// that encryption under the same key, nonce and associated data produced.
#[verifier::external_body]
pub(crate) fn chacha20poly1305_open(key: &[u8], nonce: &[u8], aad: &[u8], ct: &[u8]) -> (r: Result<Vec<u8>, AeadCallFailure>)
    requires
        key@.len() == 32 ==> nonce@.len() == 12,
    ensures
        (r matches Err(AeadCallFailure::KeyLength)) <==> key@.len() != 32,
        (key@.len() == 32 ==> match rustcrypto_chacha20poly1305_open(key@, nonce@, aad@, ct@) {
            Some(m) => bytes_of(r) == Ok::<Seq<u8>, AeadCallFailure>(m),
            None => r == Err::<Vec<u8>, AeadCallFailure>(AeadCallFailure::InvalidTag),
        }),
        r matches Ok(p) ==> p@.len() + 16 == ct@.len(),
        (forall|m: Seq<u8>|
            key@.len() == 32 && chacha_lengths_ok(aad@.len(), m.len()) && ct@ == #[trigger] rustcrypto_chacha20poly1305_seal(key@, nonce@, aad@, m)
                ==> bytes_of(r) == Ok::<Seq<u8>, AeadCallFailure>(m)),
{
    let cipher = <chacha20poly1305::ChaCha20Poly1305 as chacha20poly1305::KeyInit>::new_from_slice(key).map_err(|_| AeadCallFailure::KeyLength)?;
    #[allow(deprecated)]
    let nonce = chacha20poly1305::aead::array::Array::from_slice(nonce);
    let payload = chacha20poly1305::aead::Payload { msg: ct, aad };
    chacha20poly1305::aead::Aead::decrypt(&cipher, nonce, payload).map_err(|_| AeadCallFailure::InvalidTag)
}

/// The uncompressed SEC1 encoding of the P-256 public key that belongs to
/// a secret scalar, as `p256` computes it.
pub uninterp spec fn rustcrypto_p256_public_key(sk: Seq<u8>) -> Seq<u8>;

/// Calls the deprecated `p256::ecdsa::SigningKey::random` on the locked
/// generator and encodes the key pair: the 32-byte secret scalar and the
/// 65-byte uncompressed SEC1 encoding of its public key, which starts with
/// the tag byte 0x04. Which key comes out is chance.
#[verifier::external_body]
pub(crate) fn p256_generate(
    guard: &mut std::sync::RwLockWriteGuard<'_, rand_chacha::ChaCha20Rng>,
) -> (keys: (Vec<u8>, Vec<u8>))
    ensures
        keys.0@.len() == 32,
        keys.1@.len() == 65,
        keys.1@[0] == 0x04u8,
        keys.1@ == rustcrypto_p256_public_key(keys.0@),
{
    #[allow(deprecated)]
    let k = p256::ecdsa::SigningKey::random(&mut **guard);
    let pk = k.verifying_key().to_sec1_point(false).as_bytes().to_vec();
    (k.to_bytes().to_vec(), pk)
}

/// The outline of a DER-encoded ECDSA P-256 signature: a SEQUENCE (tag
/// 0x30) whose one-byte length covers the rest, holding two INTEGERs of at
/// most 33 bytes each, so 8 to 72 bytes in all.
pub open spec fn is_der_ecdsa_p256_outline(sig: Seq<u8>) -> bool {
    &&& 8 <= sig.len() <= 72
    &&& sig[0] == 0x30u8
    &&& sig[1] == sig.len() - 2
}

/// The DER-encoded ECDSA P-256 signature that `p256` computes (RFC 6979,
/// deterministic), or none where the key bytes are not a valid scalar.
pub uninterp spec fn rustcrypto_p256_sign(key: Seq<u8>, data: Seq<u8>) -> Option<Seq<u8>>;

/// Calls `SigningKey::from_bytes` on the key bytes, made into a field element
/// by the panicking `Array::from_slice` (hence the `requires`), then
/// `Signer::sign` and `Signature::to_der`, whose output is a DER SEQUENCE
/// of the two INTEGERs `r` and `s`.
#[verifier::external_body]
pub(crate) fn p256_sign(key: &[u8], data: &[u8]) -> (r: Result<Vec<u8>, SignatureFailure>)
    requires
        key@.len() == 32,
    ensures
        match rustcrypto_p256_sign(key@, data@) {
            Some(sig) => bytes_of(r) == Ok::<Seq<u8>, SignatureFailure>(sig),
            None => r == Err::<Vec<u8>, SignatureFailure>(SignatureFailure::InvalidKey),
        },
        r matches Ok(sig) ==> is_der_ecdsa_p256_outline(sig@),
{
    #[allow(deprecated)]
    let k = p256::ecdsa::SigningKey::from_bytes(p256::FieldBytes::from_slice(key))
        .map_err(|_| SignatureFailure::InvalidKey)?;
    let sig: p256::ecdsa::Signature = p256::ecdsa::signature::Signer::sign(&k, data);
    Ok(sig.to_der().to_bytes().into_vec())
}

/// The outcome of verifying an ECDSA P-256 signature with `p256`.
pub uninterp spec fn rustcrypto_p256_verify(pk: Seq<u8>, data: Seq<u8>, sig: Seq<u8>) -> Result<(), SignatureFailure>;

/// Calls `Sec1Point::from_bytes` and `VerifyingKey::from_sec1_point` (either
/// failing gives `InvalidKey`), `Signature::from_der` (failing gives
/// `InvalidEncoding`) and `Verifier::verify` (failing gives `Rejected`).
/// As for any correct ECDSA, a signature that `Signer::sign` made with a
/// secret scalar verifies under that scalar's public key.
#[verifier::external_body]
pub(crate) fn p256_verify(pk: &[u8], data: &[u8], sig: &[u8]) -> (r: Result<(), SignatureFailure>)
    ensures
        r == rustcrypto_p256_verify(pk@, data@, sig@),
        (forall|sk: Seq<u8>|
            pk@ == rustcrypto_p256_public_key(sk) && #[trigger] rustcrypto_p256_sign(sk, data@) == Some(sig@)
                ==> r is Ok),
        r is Err ==> (r == Err::<(), SignatureFailure>(SignatureFailure::InvalidKey) || r == Err::<(), SignatureFailure>(SignatureFailure::InvalidEncoding)
            || r == Err::<(), SignatureFailure>(SignatureFailure::Rejected)),
{
    let point = p256::Sec1Point::from_bytes(pk).map_err(|_| SignatureFailure::InvalidKey)?;
    let k = p256::ecdsa::VerifyingKey::from_sec1_point(&point).map_err(|_| SignatureFailure::InvalidKey)?;
    let s = p256::ecdsa::Signature::from_der(sig).map_err(|_| SignatureFailure::InvalidEncoding)?;
    p256::ecdsa::signature::Verifier::verify(&k, data, &s).map_err(|_| SignatureFailure::Rejected)
}

/// The encoding of the identity point of Ed25519: 0x01 followed by 31 zero
/// bytes.
pub open spec fn ed25519_identity_encoding() -> Seq<u8> {
    Seq::new(32, |i: int| if i == 0 { 1u8 } else { 0u8 })
}

/// The Ed25519 public key that belongs to a secret key, as `ed25519-dalek`
/// computes it.
pub uninterp spec fn rustcrypto_ed25519_public_key(sk: Seq<u8>) -> Seq<u8>;

/// Calls `ed25519_dalek::SigningKey::generate` on the locked generator and
/// encodes the 32-byte secret key and its 32-byte public key. Which key
/// comes out is chance.
#[verifier::external_body]
pub(crate) fn ed25519_generate(
    guard: &mut std::sync::RwLockWriteGuard<'_, rand_chacha::ChaCha20Rng>,
) -> (keys: (Vec<u8>, Vec<u8>))
    ensures
        keys.0@.len() == 32,
        keys.1@.len() == 32,
        keys.1@ == rustcrypto_ed25519_public_key(keys.0@),
{
    let sk = ed25519_dalek::SigningKey::generate(&mut **guard);
    (sk.to_bytes().to_vec(), sk.verifying_key().to_bytes().to_vec())
}

/// The 64-byte Ed25519 signature that `ed25519-dalek` computes.
pub uninterp spec fn rustcrypto_ed25519_sign(key: Seq<u8>, data: Seq<u8>) -> Seq<u8>;

/// Calls `SigningKey::try_from(&[u8])`, which fails exactly when the key is
/// not 32 bytes long, then `Signer::sign` and `Signature::to_bytes`.
#[verifier::external_body]
pub(crate) fn ed25519_sign(key: &[u8], data: &[u8]) -> (r: Result<Vec<u8>, SignatureFailure>)
    ensures
        (r matches Err(SignatureFailure::InvalidKey)) <==> key@.len() != 32,
        r is Ok <==> key@.len() == 32,
        r matches Ok(s) ==> s@ == rustcrypto_ed25519_sign(key@, data@) && s@.len() == 64,
{
    let k = ed25519_dalek::SigningKey::try_from(key).map_err(|_| SignatureFailure::InvalidKey)?;
    Ok(ed25519_dalek::Signer::sign(&k, data).to_bytes().to_vec())
}

/// The outcome of verifying an Ed25519 signature with `ed25519-dalek`.
pub uninterp spec fn rustcrypto_ed25519_verify(pk: Seq<u8>, data: Seq<u8>, sig: Seq<u8>) -> Result<(), SignatureFailure>;

/// Calls `VerifyingKey::try_from(&[u8])` (failing, among other cases, for
/// every key that is not 32 bytes long, gives `InvalidKey`), then
/// `verify_strict` on the 64-byte signature (failing gives `Rejected`). A
/// signature that `Signer::sign` made with a 32-byte secret key verifies
/// under that key's public key, unless its point R is the identity, which
/// `verify_strict` rejects as a point of small order (a point R made by
/// signing has small order only when it is the identity).
#[verifier::external_body]
pub(crate) fn ed25519_verify(pk: &[u8], data: &[u8], sig: &[u8]) -> (r: Result<(), SignatureFailure>)
    requires
        sig@.len() == 64,
    ensures
        r == rustcrypto_ed25519_verify(pk@, data@, sig@),
        (forall|sk: Seq<u8>|
            sk.len() == 32 && pk@ == rustcrypto_ed25519_public_key(sk) && sig@ == #[trigger] rustcrypto_ed25519_sign(sk, data@)
                && sig@.subrange(0, 32) != ed25519_identity_encoding() ==> r is Ok),
        (pk@.len() != 32 ==> r == Err::<(), SignatureFailure>(SignatureFailure::InvalidKey)),
        (r is Err ==> (r == Err::<(), SignatureFailure>(SignatureFailure::InvalidKey) || r == Err::<(), SignatureFailure>(SignatureFailure::Rejected))),
{
    let k = ed25519_dalek::VerifyingKey::try_from(pk).map_err(|_| SignatureFailure::InvalidKey)?;
    let s = ed25519_dalek::Signature::from_bytes(sig.try_into().unwrap());
    k.verify_strict(data, &s).map_err(|_| SignatureFailure::Rejected)
}

} // verus!
