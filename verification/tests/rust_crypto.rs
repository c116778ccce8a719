use openmls_crypto::algorithms::{HpkeFailure, HpkeStageFailure};
use openmls_crypto::rust_crypto::{rustcrypto_seal_outcome, rustcrypto_sender_export_outcome};
use openmls_crypto::types::{Ciphersuite, CryptoError, SignatureScheme};
use openmls_crypto::{RandError, RustCrypto};

const X25519_AES: Ciphersuite = Ciphersuite::MLS_128_DHKEMX25519_AES128GCM_SHA256_Ed25519;
const X25519_CHACHA: Ciphersuite = Ciphersuite::MLS_128_DHKEMX25519_CHACHA20POLY1305_SHA256_Ed25519;
const P256_AES: Ciphersuite = Ciphersuite::MLS_128_DHKEMP256_AES128GCM_SHA256_P256;
const P384_AES: Ciphersuite = Ciphersuite::MLS_256_DHKEMP384_AES256GCM_SHA384_P384;
const X448_AES: Ciphersuite = Ciphersuite::MLS_256_DHKEMX448_AES256GCM_SHA512_Ed448;
const XWING: Ciphersuite = Ciphersuite::MLS_256_XWING_CHACHA20POLY1305_SHA256_Ed25519;

fn unhex(s: &str) -> Vec<u8> {
    (0..s.len())
        .step_by(2)
        .map(|i| u8::from_str_radix(&s[i..i + 2], 16).unwrap())
        .collect()
}

#[test]
fn rc_supports_matches_list() {
    let p = RustCrypto::default();
    let list = p.supported_ciphersuites();
    assert_eq!(list, vec![X25519_AES, X25519_CHACHA, P256_AES]);
    for v in 0..=0x0100u16 {
        let cs = Ciphersuite::try_from(v).unwrap();
        assert_eq!(p.supports(cs).is_ok(), list.contains(&cs));
    }
    assert_eq!(p.supports(XWING), Err(CryptoError::UnsupportedCiphersuite));
}

#[test]
fn rc_hash_vectors() {
    let p = RustCrypto::default();
    assert_eq!(
        p.hash(X25519_AES, b"abc").unwrap(),
        unhex("ba7816bf8f01cfea414140de5dae2223b00361a396177a9cb410ff61f20015ad")
    );
    assert_eq!(
        p.hash(P384_AES, b"abc").unwrap(),
        unhex("cb00753f45a35e8bb5a03d699ac65007272c32ab0eded1631a8b605a43ff5bed8086072ba1e7cc2358baeca134c825a7")
    );
    assert_eq!(
        p.hash(X448_AES, b"abc").unwrap(),
        unhex("ddaf35a193617abacc417349ae20413112e6fa4e89a97ea20a9eeee64b55d39a2192992a274fc1a836ba3c23a3feebbd454d4423643ce80e2a9ac94fa54ca49f")
    );
    assert_eq!(p.hash(Ciphersuite::Custom(9), b"abc"), Err(CryptoError::UnsupportedCiphersuite));
}

#[test]
fn rc_hmac_vector() {
    let p = RustCrypto::default();
    assert_eq!(
        p.hmac(X25519_AES, b"Jefe", b"what do ya want for nothing?").unwrap(),
        unhex("5bdcc146bf60754e6a042426089575c75a003f089d2739839dec58b964ec3843")
    );
    assert_eq!(p.hmac(P384_AES, b"k", b"m").unwrap().len(), P384_AES.hash_length());
    assert_eq!(p.hmac(Ciphersuite::Custom(9), b"k", b"m"), Err(CryptoError::UnsupportedCiphersuite));
}

#[test]
fn rc_hkdf_vector() {
    let p = RustCrypto::default();
    let ikm = vec![0x0bu8; 22];
    let salt = unhex("000102030405060708090a0b0c");
    let info = unhex("f0f1f2f3f4f5f6f7f8f9");
    let prk = p.hkdf_extract(X25519_AES, &salt, &ikm).unwrap();
    assert_eq!(prk, unhex("077709362c2e32df0ddc3f0dc47bba6390b6c73bb50f9c3122ec844ad7c2b3e5"));
    let okm = p.hkdf_expand(X25519_AES, &prk, &info, 42).unwrap();
    assert_eq!(
        okm,
        unhex("3cb25f25faacd57a90434f64d0362f2a2d2d0a90cf1a5a4c5db02d56ecc4c5bf34007208d5b887185865")
    );
}

#[test]
fn rc_hkdf_expand_errors() {
    let p = RustCrypto::default();
    assert_eq!(p.hkdf_expand(X25519_AES, &[0u8; 31], b"", 10), Err(CryptoError::HkdfOutputLengthInvalid));
    assert_eq!(p.hkdf_expand(X25519_AES, &[0u8; 32], b"", 255 * 32 + 1), Err(CryptoError::HkdfOutputLengthInvalid));
    assert_eq!(p.hkdf_expand(X25519_AES, &[0u8; 32], b"", 255 * 32).unwrap().len(), 255 * 32);
    assert_eq!(p.hkdf_expand(Ciphersuite::Custom(1000), &[0u8; 32], b"", 1), Err(CryptoError::UnsupportedCiphersuite));
}

#[test]
fn rc_aead_round_trip() {
    let p = RustCrypto::default();
    for cs in [X25519_AES, X25519_CHACHA, P384_AES] {
        let key = vec![7u8; cs.aead_key_length()];
        let nonce = vec![1u8; cs.aead_nonce_length()];
        let msg = b"squeamish ossifrage";
        let ct = p.aead_encrypt(cs, &key, msg, &nonce, b"aad").unwrap();
        assert_eq!(ct.len(), msg.len() + cs.mac_length());
        assert_ne!(&ct[..msg.len()], &msg[..]);
        assert_eq!(p.aead_decrypt(cs, &key, &ct, &nonce, b"aad").unwrap(), msg.to_vec());
        let mut bad = ct.clone();
        bad[0] ^= 1;
        assert_eq!(p.aead_decrypt(cs, &key, &bad, &nonce, b"aad"), Err(CryptoError::AeadDecryptionError));
        assert_eq!(p.aead_decrypt(cs, &key, &ct, &nonce, b"other"), Err(CryptoError::AeadDecryptionError));
    }
}

#[test]
fn rc_aead_errors() {
    let p = RustCrypto::default();
    assert_eq!(p.aead_encrypt(X25519_AES, &[0u8; 15], b"m", &[0u8; 12], b""), Err(CryptoError::CryptoLibraryError));
    assert_eq!(p.aead_decrypt(X25519_AES, &[0u8; 15], b"m", &[0u8; 12], b""), Err(CryptoError::CryptoLibraryError));
    assert_eq!(p.aead_encrypt(Ciphersuite::Custom(3), &[0u8; 16], b"m", &[0u8; 12], b""), Err(CryptoError::UnsupportedCiphersuite));
    assert_eq!(p.aead_decrypt(X25519_AES, &[0u8; 16], &[0u8; 5], &[0u8; 12], b""), Err(CryptoError::AeadDecryptionError));
}

#[test]
fn rc_ed25519_vector() {
    let p = RustCrypto::default();
    let sk = unhex("9d61b19deffd5a60ba844af492ec2cc44449c5697b326919703bac031cae7f60");
    let pk = unhex("d75a980182b10ab7d54bfed3c964073a0ee172f3daa62325af021a68f707511a");
    let sig = p.sign(SignatureScheme::ED25519, b"", &sk).unwrap();
    assert_eq!(
        sig,
        unhex("e5564300c360ac729086e2cc806e828a84877f1eb8e5d974d873e065224901555fb8821590a33bacc61e39701cf9b46bd25bf5f0595bbe24655141438e7a100b")
    );
    assert_eq!(p.verify_signature(SignatureScheme::ED25519, b"", &pk, &sig), Ok(()));
    assert_eq!(p.verify_signature(SignatureScheme::ED25519, b"x", &pk, &sig), Err(CryptoError::InvalidSignature));
    assert_eq!(p.verify_signature(SignatureScheme::ED25519, b"", &pk, &sig[..63]), Err(CryptoError::CryptoLibraryError));
    assert_eq!(p.verify_signature(SignatureScheme::ED25519, b"", &pk[..31], &sig), Err(CryptoError::CryptoLibraryError));
    assert_eq!(p.sign(SignatureScheme::ED25519, b"", &sk[..31]), Err(CryptoError::CryptoLibraryError));
}

#[test]
fn rc_keygen_sign_verify() {
    let p = RustCrypto::default();
    let (sk, pk) = p.signature_key_gen(SignatureScheme::ED25519).unwrap();
    assert_eq!((sk.len(), pk.len()), (32, 32));
    let sig = p.sign(SignatureScheme::ED25519, b"message", &sk).unwrap();
    assert_eq!(p.verify_signature(SignatureScheme::ED25519, b"message", &pk, &sig), Ok(()));

    let (sk, pk) = p.signature_key_gen(SignatureScheme::ECDSA_SECP256R1_SHA256).unwrap();
    assert_eq!((sk.len(), pk.len()), (32, 65));
    assert_eq!(pk[0], 0x04);
    let sig = p.sign(SignatureScheme::ECDSA_SECP256R1_SHA256, b"message", &sk).unwrap();
    assert_eq!(p.verify_signature(SignatureScheme::ECDSA_SECP256R1_SHA256, b"message", &pk, &sig), Ok(()));
    assert_eq!(
        p.verify_signature(SignatureScheme::ECDSA_SECP256R1_SHA256, b"massage", &pk, &sig),
        Err(CryptoError::InvalidSignature)
    );
    assert_eq!(
        p.verify_signature(SignatureScheme::ECDSA_SECP256R1_SHA256, b"message", &pk, b"not der"),
        Err(CryptoError::InvalidSignature)
    );
    assert_eq!(
        p.verify_signature(SignatureScheme::ECDSA_SECP256R1_SHA256, b"message", b"bad key", &sig),
        Err(CryptoError::CryptoLibraryError)
    );
    assert_eq!(
        p.sign(SignatureScheme::ECDSA_SECP256R1_SHA256, b"m", &[0u8; 32]),
        Err(CryptoError::CryptoLibraryError)
    );
}

#[test]
fn rc_unsupported_signature_scheme() {
    let p = RustCrypto::default();
    assert_eq!(p.signature_key_gen(SignatureScheme::ED448), Err(CryptoError::UnsupportedSignatureScheme));
    assert_eq!(p.sign(SignatureScheme::ED448, b"m", &[0u8; 57]), Err(CryptoError::UnsupportedSignatureScheme));
    assert_eq!(
        p.verify_signature(SignatureScheme::ECDSA_SECP384R1_SHA384, b"m", b"k", b"s"),
        Err(CryptoError::UnsupportedSignatureScheme)
    );
}

#[test]
fn rc_hpke_round_trip() {
    let p = RustCrypto::default();
    for cs in [X25519_AES, X25519_CHACHA, P256_AES] {
        let kp = p.derive_hpke_keypair(cs, &[42u8; 32]).unwrap();
        let kp2 = p.derive_hpke_keypair(cs, &[42u8; 32]).unwrap();
        assert_eq!(&*kp.private, &*kp2.private);
        assert_ne!(&*kp.private, &[42u8; 32][..]);
        assert_eq!(kp.public, kp2.public);
        let ct = p.hpke_seal(cs, &kp.public, b"info", b"aad", b"hello").unwrap();
        assert_eq!(ct.ciphertext.len(), 5 + 16);
        assert_eq!(p.hpke_open(cs, &ct, &kp.private, b"info", b"aad").unwrap(), b"hello".to_vec());
        assert_eq!(p.hpke_open(cs, &ct, &kp.private, b"info", b"bad"), Err(CryptoError::HpkeDecryptionError));
        let (enc, secret) = p.hpke_setup_sender_and_export(cs, &kp.public, b"info", b"ctx", 24).unwrap();
        assert_eq!(secret.len(), 24);
        let secret2 = p.hpke_setup_receiver_and_export(cs, &enc, &kp.private, b"info", b"ctx", 24).unwrap();
        assert_eq!(&*secret, &*secret2);
    }
}

#[test]
fn rc_hpke_unsupported() {
    let p = RustCrypto::default();
    assert_eq!(p.hpke_seal(XWING, &[0u8; 32], b"", b"", b"").err(), Some(CryptoError::UnsupportedCiphersuite));
    assert_eq!(p.derive_hpke_keypair(Ciphersuite::Custom(5), &[0u8; 32]).err(), Some(CryptoError::UnsupportedCiphersuite));
}

#[test]
fn rc_random() {
    let p = RustCrypto::default();
    let v = p.random_vec(100).unwrap();
    assert_eq!(v.len(), 100);
    let a: [u8; 32] = p.random_array().unwrap();
    let b: [u8; 32] = p.random_array().unwrap();
    assert_ne!(a, b);
    let _: Result<Vec<u8>, RandError> = p.random_vec(0);
}

#[test]
fn rc_seal_outcome_maps_each_failure() {
    let c = rustcrypto_seal_outcome(Ok((vec![1, 2], vec![3]))).unwrap();
    assert_eq!(c.kem_output, vec![1, 2]);
    assert_eq!(c.ciphertext, vec![3]);
    assert_eq!(rustcrypto_seal_outcome(Err(HpkeFailure::InvalidInput)), Err(CryptoError::InvalidLength));
    assert_eq!(rustcrypto_seal_outcome(Err(HpkeFailure::InvalidConfig)), Err(CryptoError::CryptoLibraryError));
    assert_eq!(rustcrypto_seal_outcome(Err(HpkeFailure::Unavailable)), Err(CryptoError::CryptoLibraryError));
    assert_eq!(rustcrypto_seal_outcome(Err(HpkeFailure::Other)), Err(CryptoError::CryptoLibraryError));
}

#[test]
fn rc_sender_export_outcome_maps_each_stage() {
    let (enc, secret) = rustcrypto_sender_export_outcome(Ok((vec![9], vec![7, 7]))).unwrap();
    assert_eq!(enc, vec![9]);
    assert_eq!(&*secret, &[7u8, 7][..]);
    assert_eq!(rustcrypto_sender_export_outcome(Err(HpkeStageFailure::Export)).err(), Some(CryptoError::ExporterError));
    assert_eq!(rustcrypto_sender_export_outcome(Err(HpkeStageFailure::Setup)).err(), Some(CryptoError::SenderSetupError));
    assert_eq!(rustcrypto_sender_export_outcome(Err(HpkeStageFailure::Unavailable)).err(), Some(CryptoError::SenderSetupError));
}

#[test]
fn rc_hpke_to_wrong_key_does_not_open() {
    let p = RustCrypto::default();
    let kp = p.derive_hpke_keypair(X25519_AES, &[1u8; 32]).unwrap();
    let other = p.derive_hpke_keypair(X25519_AES, &[2u8; 32]).unwrap();
    let ct = p.hpke_seal(X25519_AES, &kp.public, b"", b"", b"msg").unwrap();
    assert_eq!(p.hpke_open(X25519_AES, &ct, &other.private, b"", b""), Err(CryptoError::HpkeDecryptionError));
    let (enc, s1) = p.hpke_setup_sender_and_export(X25519_AES, &kp.public, b"", b"c", 16).unwrap();
    let s2 = p.hpke_setup_receiver_and_export(X25519_AES, &enc, &other.private, b"", b"c", 16).unwrap();
    assert_ne!(&*s1, &*s2);
}

#[test]
fn rc_lengths_match_ciphersuite() {
    let p = RustCrypto::default();
    for cs in [X25519_AES, X25519_CHACHA, P256_AES, P384_AES, X448_AES, XWING] {
        assert_eq!(p.hash(cs, b"x").unwrap().len(), cs.hash_length());
        assert_eq!(p.hmac(cs, b"k", b"x").unwrap().len(), cs.hash_length());
        assert_eq!(p.hkdf_extract(cs, b"s", b"x").unwrap().len(), cs.hash_length());
        let key = vec![5u8; cs.aead_key_length()];
        let nonce = vec![6u8; cs.aead_nonce_length()];
        let ct = p.aead_encrypt(cs, &key, b"abc", &nonce, b"").unwrap();
        assert_eq!(ct.len(), 3 + cs.mac_length());
    }
}

#[test]
fn rc_ecdsa_signature_is_der() {
    let p = RustCrypto::default();
    let (sk, _pk) = p.signature_key_gen(SignatureScheme::ECDSA_SECP256R1_SHA256).unwrap();
    let sig = p.sign(SignatureScheme::ECDSA_SECP256R1_SHA256, b"m", &sk).unwrap();
    assert!(sig.len() >= 8 && sig.len() <= 72);
    assert_eq!(sig[0], 0x30);
    assert_eq!(sig[1] as usize, sig.len() - 2);
}

#[test]
fn rc_hkdf_prefix_and_extract_is_hmac() {
    let p = RustCrypto::default();
    let prk = p.hkdf_extract(X25519_AES, b"salt", b"ikm").unwrap();
    assert_eq!(prk, p.hmac(X25519_AES, b"salt", b"ikm").unwrap());
    let long = p.hkdf_expand(X25519_AES, &prk, b"info", 100).unwrap();
    let short = p.hkdf_expand(X25519_AES, &prk, b"info", 33).unwrap();
    assert_eq!(&long[..33], &short[..]);
}

#[test]
fn rc_short_ciphertext_and_plaintext_length() {
    let p = RustCrypto::default();
    assert_eq!(p.aead_decrypt(X25519_CHACHA, &[0u8; 32], &[0u8; 15], &[0u8; 12], b""), Err(CryptoError::AeadDecryptionError));
    let ct = p.aead_encrypt(X25519_CHACHA, &[0u8; 32], b"twelve bytes", &[0u8; 12], b"").unwrap();
    assert_eq!(p.aead_decrypt(X25519_CHACHA, &[0u8; 32], &ct, &[0u8; 12], b"").unwrap().len(), ct.len() - 16);
}

#[test]
fn rc_hpke_key_and_kem_output_lengths() {
    let p = RustCrypto::default();
    for (cs, sk_len, pk_len) in [(X25519_AES, 32, 32), (P256_AES, 32, 65)] {
        let kp = p.derive_hpke_keypair(cs, &[3u8; 32]).unwrap();
        assert_eq!((kp.private.len(), kp.public.len()), (sk_len, pk_len));
        let ct = p.hpke_seal(cs, &kp.public, b"", b"", b"x").unwrap();
        assert_eq!(ct.kem_output.len(), pk_len);
        let (enc, _) = p.hpke_setup_sender_and_export(cs, &kp.public, b"", b"", 8).unwrap();
        assert_eq!(enc.len(), pk_len);
    }
}
