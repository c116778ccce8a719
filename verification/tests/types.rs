use openmls_crypto::types::{
    Ciphersuite, CryptoError, ExporterSecret, HpkePrivateKey, VerifiableCiphersuite,
};

const REGISTERED: [(Ciphersuite, u16); 8] = [
    (Ciphersuite::MLS_128_DHKEMX25519_AES128GCM_SHA256_Ed25519, 0x0001),
    (Ciphersuite::MLS_128_DHKEMP256_AES128GCM_SHA256_P256, 0x0002),
    (Ciphersuite::MLS_128_DHKEMX25519_CHACHA20POLY1305_SHA256_Ed25519, 0x0003),
    (Ciphersuite::MLS_256_DHKEMX448_AES256GCM_SHA512_Ed448, 0x0004),
    (Ciphersuite::MLS_256_DHKEMP521_AES256GCM_SHA512_P521, 0x0005),
    (Ciphersuite::MLS_256_DHKEMX448_CHACHA20POLY1305_SHA512_Ed448, 0x0006),
    (Ciphersuite::MLS_256_DHKEMP384_AES256GCM_SHA384_P384, 0x0007),
    (Ciphersuite::MLS_256_XWING_CHACHA20POLY1305_SHA256_Ed25519, 0x004D),
];

#[test]
fn registered_code_points() {
    for (cs, code) in REGISTERED {
        assert_eq!(u16::from(cs), code);
        assert_eq!(u16::from(&cs), code);
        assert_eq!(Ciphersuite::try_from(code).unwrap(), cs);
    }
}

#[test]
fn unknown_code_point_is_custom() {
    assert_eq!(Ciphersuite::try_from(0x0008u16).unwrap(), Ciphersuite::Custom(0x0008));
    assert_eq!(Ciphersuite::try_from(0xFFFFu16).unwrap(), Ciphersuite::Custom(0xFFFF));
    assert_eq!(u16::from(Ciphersuite::Custom(0x1234)), 0x1234);
}

#[test]
fn code_round_trip_on_every_value() {
    for v in 0..=u16::MAX {
        let cs = Ciphersuite::try_from(v).unwrap();
        assert_eq!(u16::from(cs), v);
    }
}

#[test]
fn custom_with_registered_code_decodes_to_registered_suite() {
    let cs = Ciphersuite::Custom(0x0001);
    let back = Ciphersuite::try_from(u16::from(cs)).unwrap();
    assert_eq!(back, Ciphersuite::MLS_128_DHKEMX25519_AES128GCM_SHA256_Ed25519);
    assert_ne!(back, cs);
}

#[test]
fn verifiable_ciphersuite_round_trip() {
    for (cs, _) in REGISTERED {
        let v = VerifiableCiphersuite::from(cs);
        assert_eq!(Ciphersuite::try_from(v).unwrap(), cs);
    }
    assert_eq!(
        Ciphersuite::try_from(VerifiableCiphersuite::new(0x0042)).unwrap(),
        Ciphersuite::Custom(0x0042)
    );
    assert_eq!(VerifiableCiphersuite::new(3), VerifiableCiphersuite::from(
        Ciphersuite::MLS_128_DHKEMX25519_CHACHA20POLY1305_SHA256_Ed25519
    ));
}

#[test]
fn hash_lengths() {
    let expected = [32, 32, 32, 64, 64, 64, 48, 32];
    for ((cs, _), len) in REGISTERED.iter().zip(expected) {
        assert_eq!(cs.hash_length(), len);
    }
    assert_eq!(Ciphersuite::Custom(77).hash_length(), 32);
}

#[test]
fn aead_lengths() {
    let expected = [16, 16, 32, 32, 32, 32, 32, 32];
    for ((cs, _), len) in REGISTERED.iter().zip(expected) {
        assert_eq!(cs.aead_key_length(), len);
        assert_eq!(cs.mac_length(), 16);
        assert_eq!(cs.aead_nonce_length(), 12);
    }
    assert_eq!(Ciphersuite::Custom(77).aead_key_length(), 32);
}

#[test]
fn private_key_and_exporter_secret_hold_their_bytes() {
    let k = HpkePrivateKey::from(vec![1u8, 2, 3]);
    assert_eq!(&*k, &[1u8, 2, 3][..]);
    let k2 = HpkePrivateKey::from(&[4u8, 5][..]);
    assert_eq!(&*k2, &[4u8, 5][..]);
    let s = ExporterSecret::from(vec![9u8; 7]);
    assert_eq!(&*s, &[9u8; 7][..]);
}

#[test]
fn error_message_names_variant() {
    assert_eq!(CryptoError::UnsupportedCiphersuite.message(), "UnsupportedCiphersuite");
    assert_eq!(CryptoError::InvalidLength.message(), "InvalidLength");
    assert_eq!(
        CryptoError::InvalidLength.message(),
        format!("{:?}", CryptoError::InvalidLength)
    );
}

#[test]
fn verifiable_ciphersuite_is_its_code_point() {
    for cs in [Ciphersuite::MLS_128_DHKEMP256_AES128GCM_SHA256_P256, Ciphersuite::Custom(0x1234)] {
        assert_eq!(VerifiableCiphersuite::from(cs), VerifiableCiphersuite::new(u16::from(cs)));
    }
    assert_ne!(VerifiableCiphersuite::new(1), VerifiableCiphersuite::new(2));
}
