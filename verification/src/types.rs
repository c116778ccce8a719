//! The values that the providers take and give: errors, ciphersuites,
//! signature schemes and the HPKE containers.
use vstd::prelude::*;

verus! {

/// Errors that a cryptographic provider reports.
#[derive(Debug, PartialEq, Eq, Clone, Copy, Structural)]
pub enum CryptoError {
    CryptoLibraryError,
    AeadDecryptionError,
    HpkeDecryptionError,
    HpkeEncryptionError,
    UnsupportedSignatureScheme,
    KdfLabelTooLarge,
    KdfSerializationError,
    HkdfOutputLengthInvalid,
    InsufficientRandomness,
    InvalidSignature,
    UnsupportedAeadAlgorithm,
    UnsupportedKdf,
    InvalidLength,
    UnsupportedHashAlgorithm,
    SignatureEncodingError,
    SignatureDecodingError,
    SenderSetupError,
    ReceiverSetupError,
    ExporterError,
    UnsupportedCiphersuite,
    TlsSerializationError,
    TooMuchData,
    SigningError,
    InvalidPublicKey,
}

/// The name of an error variant, as `Debug` writes it.
pub open spec fn crypto_error_name(e: CryptoError) -> Seq<char> {
    match e {
        CryptoError::CryptoLibraryError => "CryptoLibraryError"@,
        CryptoError::AeadDecryptionError => "AeadDecryptionError"@,
        CryptoError::HpkeDecryptionError => "HpkeDecryptionError"@,
        CryptoError::HpkeEncryptionError => "HpkeEncryptionError"@,
        CryptoError::UnsupportedSignatureScheme => "UnsupportedSignatureScheme"@,
        CryptoError::KdfLabelTooLarge => "KdfLabelTooLarge"@,
        CryptoError::KdfSerializationError => "KdfSerializationError"@,
        CryptoError::HkdfOutputLengthInvalid => "HkdfOutputLengthInvalid"@,
        CryptoError::InsufficientRandomness => "InsufficientRandomness"@,
        CryptoError::InvalidSignature => "InvalidSignature"@,
        CryptoError::UnsupportedAeadAlgorithm => "UnsupportedAeadAlgorithm"@,
        CryptoError::UnsupportedKdf => "UnsupportedKdf"@,
        CryptoError::InvalidLength => "InvalidLength"@,
        CryptoError::UnsupportedHashAlgorithm => "UnsupportedHashAlgorithm"@,
        CryptoError::SignatureEncodingError => "SignatureEncodingError"@,
        CryptoError::SignatureDecodingError => "SignatureDecodingError"@,
        CryptoError::SenderSetupError => "SenderSetupError"@,
        CryptoError::ReceiverSetupError => "ReceiverSetupError"@,
        CryptoError::ExporterError => "ExporterError"@,
        CryptoError::UnsupportedCiphersuite => "UnsupportedCiphersuite"@,
        CryptoError::TlsSerializationError => "TlsSerializationError"@,
        CryptoError::TooMuchData => "TooMuchData"@,
        CryptoError::SigningError => "SigningError"@,
        CryptoError::InvalidPublicKey => "InvalidPublicKey"@,
    }
}

impl CryptoError {
    /// The name of the error variant, as `Debug` writes it.
    pub fn message(&self) -> (s: &'static str)
        ensures
            s@ == crypto_error_name(*self),
    {
        match self {
            CryptoError::CryptoLibraryError => "CryptoLibraryError",
            CryptoError::AeadDecryptionError => "AeadDecryptionError",
            CryptoError::HpkeDecryptionError => "HpkeDecryptionError",
            CryptoError::HpkeEncryptionError => "HpkeEncryptionError",
            CryptoError::UnsupportedSignatureScheme => "UnsupportedSignatureScheme",
            CryptoError::KdfLabelTooLarge => "KdfLabelTooLarge",
            CryptoError::KdfSerializationError => "KdfSerializationError",
            CryptoError::HkdfOutputLengthInvalid => "HkdfOutputLengthInvalid",
            CryptoError::InsufficientRandomness => "InsufficientRandomness",
            CryptoError::InvalidSignature => "InvalidSignature",
            CryptoError::UnsupportedAeadAlgorithm => "UnsupportedAeadAlgorithm",
            CryptoError::UnsupportedKdf => "UnsupportedKdf",
            CryptoError::InvalidLength => "InvalidLength",
            CryptoError::UnsupportedHashAlgorithm => "UnsupportedHashAlgorithm",
            CryptoError::SignatureEncodingError => "SignatureEncodingError",
            CryptoError::SignatureDecodingError => "SignatureDecodingError",
            CryptoError::SenderSetupError => "SenderSetupError",
            CryptoError::ReceiverSetupError => "ReceiverSetupError",
            CryptoError::ExporterError => "ExporterError",
            CryptoError::UnsupportedCiphersuite => "UnsupportedCiphersuite",
            CryptoError::TlsSerializationError => "TlsSerializationError",
            CryptoError::TooMuchData => "TooMuchData",
            CryptoError::SigningError => "SigningError",
            CryptoError::InvalidPublicKey => "InvalidPublicKey",
        }
    }
}

/// MLS ciphersuites. Each registered suite names a KEM, an AEAD, a hash
/// function and a signature scheme; `Custom` carries any other code point.
#[derive(Debug, Clone, Copy, PartialEq, Eq, Structural, Hash, PartialOrd, Ord)]
pub enum Ciphersuite {
    /// DH KEM x25519 | AES-GCM 128 | SHA2-256 | Ed25519
    MLS_128_DHKEMX25519_AES128GCM_SHA256_Ed25519,
    /// DH KEM P256 | AES-GCM 128 | SHA2-256 | EcDSA P256
    MLS_128_DHKEMP256_AES128GCM_SHA256_P256,
    /// DH KEM x25519 | Chacha20Poly1305 | SHA2-256 | Ed25519
    MLS_128_DHKEMX25519_CHACHA20POLY1305_SHA256_Ed25519,
    /// DH KEM x448 | AES-GCM 256 | SHA2-512 | Ed448
    MLS_256_DHKEMX448_AES256GCM_SHA512_Ed448,
    /// DH KEM P521 | AES-GCM 256 | SHA2-512 | EcDSA P521
    MLS_256_DHKEMP521_AES256GCM_SHA512_P521,
    /// DH KEM x448 | Chacha20Poly1305 | SHA2-512 | Ed448
    MLS_256_DHKEMX448_CHACHA20POLY1305_SHA512_Ed448,
    /// DH KEM P384 | AES-GCM 256 | SHA2-384 | EcDSA P384
    MLS_256_DHKEMP384_AES256GCM_SHA384_P384,
    /// X-WING KEM draft-01 | Chacha20Poly1305 | SHA2-256 | Ed25519
    MLS_256_XWING_CHACHA20POLY1305_SHA256_Ed25519,
    /// Custom ciphersuite with arbitrary value
    Custom(u16),
}

/// The two-byte code point of a ciphersuite.
pub open spec fn ciphersuite_code(cs: Ciphersuite) -> u16 {
    match cs {
        Ciphersuite::MLS_128_DHKEMX25519_AES128GCM_SHA256_Ed25519 => 0x0001,
        Ciphersuite::MLS_128_DHKEMP256_AES128GCM_SHA256_P256 => 0x0002,
        Ciphersuite::MLS_128_DHKEMX25519_CHACHA20POLY1305_SHA256_Ed25519 => 0x0003,
        Ciphersuite::MLS_256_DHKEMX448_AES256GCM_SHA512_Ed448 => 0x0004,
        Ciphersuite::MLS_256_DHKEMP521_AES256GCM_SHA512_P521 => 0x0005,
        Ciphersuite::MLS_256_DHKEMX448_CHACHA20POLY1305_SHA512_Ed448 => 0x0006,
        Ciphersuite::MLS_256_DHKEMP384_AES256GCM_SHA384_P384 => 0x0007,
        Ciphersuite::MLS_256_XWING_CHACHA20POLY1305_SHA256_Ed25519 => 0x004D,
        Ciphersuite::Custom(value) => value,
    }
}

/// Whether a code point belongs to one of the registered suites.
pub open spec fn is_registered_code(v: u16) -> bool {
    (1 <= v <= 7) || v == 0x004D
}

/// The ciphersuite that a code point denotes: a registered suite for its own
/// code point, `Custom` for every other value.
pub open spec fn ciphersuite_of_code(v: u16) -> Ciphersuite {
    if v == 0x0001 {
        Ciphersuite::MLS_128_DHKEMX25519_AES128GCM_SHA256_Ed25519
    } else if v == 0x0002 {
        Ciphersuite::MLS_128_DHKEMP256_AES128GCM_SHA256_P256
    } else if v == 0x0003 {
        Ciphersuite::MLS_128_DHKEMX25519_CHACHA20POLY1305_SHA256_Ed25519
    } else if v == 0x0004 {
        Ciphersuite::MLS_256_DHKEMX448_AES256GCM_SHA512_Ed448
    } else if v == 0x0005 {
        Ciphersuite::MLS_256_DHKEMP521_AES256GCM_SHA512_P521
    } else if v == 0x0006 {
        Ciphersuite::MLS_256_DHKEMX448_CHACHA20POLY1305_SHA512_Ed448
    } else if v == 0x0007 {
        Ciphersuite::MLS_256_DHKEMP384_AES256GCM_SHA384_P384
    } else if v == 0x004D {
        Ciphersuite::MLS_256_XWING_CHACHA20POLY1305_SHA256_Ed25519
    } else {
        Ciphersuite::Custom(v)
    }
}

/// Whether a ciphersuite is written in its canonical form: a `Custom` value
/// never carries the code point of a registered suite.
pub open spec fn is_canonical(cs: Ciphersuite) -> bool {
    match cs {
        Ciphersuite::Custom(v) => !is_registered_code(v),
        _ => true,
    }
}

/// The digest length, in bytes, of the hash function of a ciphersuite.
pub open spec fn spec_hash_length(cs: Ciphersuite) -> nat {
    match cs {
        Ciphersuite::MLS_128_DHKEMX25519_AES128GCM_SHA256_Ed25519
        | Ciphersuite::MLS_128_DHKEMP256_AES128GCM_SHA256_P256
        | Ciphersuite::MLS_128_DHKEMX25519_CHACHA20POLY1305_SHA256_Ed25519
        | Ciphersuite::MLS_256_XWING_CHACHA20POLY1305_SHA256_Ed25519 => 32,
        Ciphersuite::MLS_256_DHKEMP384_AES256GCM_SHA384_P384 => 48,
        Ciphersuite::MLS_256_DHKEMX448_AES256GCM_SHA512_Ed448
        | Ciphersuite::MLS_256_DHKEMP521_AES256GCM_SHA512_P521
        | Ciphersuite::MLS_256_DHKEMX448_CHACHA20POLY1305_SHA512_Ed448 => 64,
        Ciphersuite::Custom(_) => 32,
    }
}

/// The key length, in bytes, of the AEAD of a ciphersuite.
pub open spec fn spec_aead_key_length(cs: Ciphersuite) -> nat {
    match cs {
        Ciphersuite::MLS_128_DHKEMX25519_AES128GCM_SHA256_Ed25519
        | Ciphersuite::MLS_128_DHKEMP256_AES128GCM_SHA256_P256 => 16,
        _ => 32,
    }
}

/// The tag length, in bytes, of every AEAD that a ciphersuite can name.
pub open spec fn spec_mac_length() -> nat {
    16
}

/// The nonce length, in bytes, of every AEAD that a ciphersuite can name.
pub open spec fn spec_aead_nonce_length() -> nat {
    12
}

impl Ciphersuite {
    /// Get the length of the used hash algorithm.
    pub fn hash_length(&self) -> (len: usize)
        ensures
            len == spec_hash_length(*self),
    {
        match self {
            Ciphersuite::MLS_128_DHKEMX25519_AES128GCM_SHA256_Ed25519
            | Ciphersuite::MLS_128_DHKEMP256_AES128GCM_SHA256_P256
            | Ciphersuite::MLS_128_DHKEMX25519_CHACHA20POLY1305_SHA256_Ed25519
            | Ciphersuite::MLS_256_XWING_CHACHA20POLY1305_SHA256_Ed25519 => 32,
            Ciphersuite::MLS_256_DHKEMP384_AES256GCM_SHA384_P384 => 48,
            Ciphersuite::MLS_256_DHKEMX448_AES256GCM_SHA512_Ed448
            | Ciphersuite::MLS_256_DHKEMP521_AES256GCM_SHA512_P521
            | Ciphersuite::MLS_256_DHKEMX448_CHACHA20POLY1305_SHA512_Ed448 => 64,
            Ciphersuite::Custom(_) => 32,
        }
    }

    /// Get the length of the AEAD tag.
    pub fn mac_length(&self) -> (len: usize)
        ensures
            len == spec_mac_length(),
    {
        16
    }

    /// Returns the key size of the used AEAD.
    pub fn aead_key_length(&self) -> (len: usize)
        ensures
            len == spec_aead_key_length(*self),
    {
        match self {
            Ciphersuite::MLS_128_DHKEMX25519_AES128GCM_SHA256_Ed25519
            | Ciphersuite::MLS_128_DHKEMP256_AES128GCM_SHA256_P256 => 16,
            Ciphersuite::MLS_128_DHKEMX25519_CHACHA20POLY1305_SHA256_Ed25519
            | Ciphersuite::MLS_256_DHKEMX448_CHACHA20POLY1305_SHA512_Ed448
            | Ciphersuite::MLS_256_XWING_CHACHA20POLY1305_SHA256_Ed25519
            | Ciphersuite::MLS_256_DHKEMX448_AES256GCM_SHA512_Ed448
            | Ciphersuite::MLS_256_DHKEMP521_AES256GCM_SHA512_P521
            | Ciphersuite::MLS_256_DHKEMP384_AES256GCM_SHA384_P384 => 32,
            Ciphersuite::Custom(_) => 32,
        }
    }

    /// Returns the length of the nonce of the AEAD.
    pub fn aead_nonce_length(&self) -> (len: usize)
        ensures
            len == spec_aead_nonce_length(),
    {
        12
    }

    /// The two-byte code point of this ciphersuite.
    pub fn code(&self) -> (v: u16)
        ensures
            v == ciphersuite_code(*self),
    {
        match self {
            Ciphersuite::MLS_128_DHKEMX25519_AES128GCM_SHA256_Ed25519 => 0x0001,
            Ciphersuite::MLS_128_DHKEMP256_AES128GCM_SHA256_P256 => 0x0002,
            Ciphersuite::MLS_128_DHKEMX25519_CHACHA20POLY1305_SHA256_Ed25519 => 0x0003,
            Ciphersuite::MLS_256_DHKEMX448_AES256GCM_SHA512_Ed448 => 0x0004,
            Ciphersuite::MLS_256_DHKEMP521_AES256GCM_SHA512_P521 => 0x0005,
            Ciphersuite::MLS_256_DHKEMX448_CHACHA20POLY1305_SHA512_Ed448 => 0x0006,
            Ciphersuite::MLS_256_DHKEMP384_AES256GCM_SHA384_P384 => 0x0007,
            Ciphersuite::MLS_256_XWING_CHACHA20POLY1305_SHA256_Ed25519 => 0x004D,
            Ciphersuite::Custom(value) => *value,
        }
    }

    /// The ciphersuite that a code point denotes; never fails, since any
    /// unregistered value becomes `Custom`.
    pub fn from_code(v: u16) -> (cs: Ciphersuite)
        ensures
            cs == ciphersuite_of_code(v),
    {
        match v {
            0x0001 => Ciphersuite::MLS_128_DHKEMX25519_AES128GCM_SHA256_Ed25519,
            0x0002 => Ciphersuite::MLS_128_DHKEMP256_AES128GCM_SHA256_P256,
            0x0003 => Ciphersuite::MLS_128_DHKEMX25519_CHACHA20POLY1305_SHA256_Ed25519,
            0x0004 => Ciphersuite::MLS_256_DHKEMX448_AES256GCM_SHA512_Ed448,
            0x0005 => Ciphersuite::MLS_256_DHKEMP521_AES256GCM_SHA512_P521,
            0x0006 => Ciphersuite::MLS_256_DHKEMX448_CHACHA20POLY1305_SHA512_Ed448,
            0x0007 => Ciphersuite::MLS_256_DHKEMP384_AES256GCM_SHA384_P384,
            0x004D => Ciphersuite::MLS_256_XWING_CHACHA20POLY1305_SHA256_Ed25519,
            other => Ciphersuite::Custom(other),
        }
    }
}


impl From<Ciphersuite> for u16 {
    fn from(s: Ciphersuite) -> (v: u16)
        ensures
            v == ciphersuite_code(s),
    {
        s.code()
    }
}

impl vstd::std_specs::convert::FromSpecImpl<Ciphersuite> for u16 {
    open spec fn obeys_from_spec() -> bool {
        true
    }

    open spec fn from_spec(s: Ciphersuite) -> u16 {
        ciphersuite_code(s)
    }
}

impl From<&Ciphersuite> for u16 {
    fn from(s: &Ciphersuite) -> (v: u16)
        ensures
            v == ciphersuite_code(*s),
    {
        s.code()
    }
}

impl vstd::std_specs::convert::FromSpecImpl<&Ciphersuite> for u16 {
    open spec fn obeys_from_spec() -> bool {
        true
    }

    open spec fn from_spec(s: &Ciphersuite) -> u16 {
        ciphersuite_code(*s)
    }
}

/// The error type of the decoding conversions into `Ciphersuite`.
#[verifier::external_type_specification]
#[verifier::external_body]
pub struct ExTlsCodecError(tls_codec::Error);

impl TryFrom<u16> for Ciphersuite {
    type Error = tls_codec::Error;

    fn try_from(v: u16) -> (r: Result<Ciphersuite, tls_codec::Error>)
        ensures
            r == Ok::<Ciphersuite, tls_codec::Error>(ciphersuite_of_code(v)),
    {
        Ok(Ciphersuite::from_code(v))
    }
}

impl vstd::std_specs::convert::TryFromSpecImpl<u16> for Ciphersuite {
    open spec fn obeys_try_from_spec() -> bool {
        true
    }

    open spec fn try_from_spec(v: u16) -> Result<Ciphersuite, tls_codec::Error> {
        Ok(ciphersuite_of_code(v))
    }
}

/// A ciphersuite code point that may not be known to this library.
///
/// Used to accept unknown values, e.g., in `Capabilities`.
#[derive(Clone, Copy, Debug, PartialEq, Eq, Structural)]
pub struct VerifiableCiphersuite(u16);

impl View for VerifiableCiphersuite {
    type V = u16;

    closed spec fn view(&self) -> u16 {
        self.0
    }
}

impl VerifiableCiphersuite {
    pub fn new(value: u16) -> (r: Self)
        ensures
            r@ == value,
    {
        Self(value)
    }
}

/// A `VerifiableCiphersuite` is determined by its code point: two values
/// with the same code point are equal, so `VerifiableCiphersuite::from(cs)`
/// is `VerifiableCiphersuite::new(u16::from(cs))`.
pub proof fn lemma_verifiable_ciphersuite_determined_by_code(
    a: VerifiableCiphersuite,
    b: VerifiableCiphersuite,
)
    requires
        a@ == b@,
    ensures
        a == b,
{
}

impl From<Ciphersuite> for VerifiableCiphersuite {
    fn from(value: Ciphersuite) -> (r: Self)
        ensures
            r@ == ciphersuite_code(value),
    {
        Self(value.code())
    }
}

impl vstd::std_specs::convert::FromSpecImpl<Ciphersuite> for VerifiableCiphersuite {
    open spec fn obeys_from_spec() -> bool {
        true
    }

    closed spec fn from_spec(value: Ciphersuite) -> VerifiableCiphersuite {
        VerifiableCiphersuite(ciphersuite_code(value))
    }
}

impl TryFrom<VerifiableCiphersuite> for Ciphersuite {
    type Error = tls_codec::Error;

    fn try_from(value: VerifiableCiphersuite) -> (r: Result<Ciphersuite, tls_codec::Error>)
        ensures
            r == Ok::<Ciphersuite, tls_codec::Error>(ciphersuite_of_code(value@)),
    {
        Ok(Ciphersuite::from_code(value.0))
    }
}

impl vstd::std_specs::convert::TryFromSpecImpl<VerifiableCiphersuite> for Ciphersuite {
    open spec fn obeys_try_from_spec() -> bool {
        true
    }

    open spec fn try_from_spec(value: VerifiableCiphersuite) -> Result<
        Ciphersuite,
        tls_codec::Error,
    > {
        Ok(ciphersuite_of_code(value@))
    }
}

/// Decoding the code point of a ciphersuite gives back that code point:
/// `u16::from(Ciphersuite::try_from(v)?) == v` for every `v`.
pub proof fn lemma_code_round_trip(v: u16)
    ensures
        ciphersuite_code(ciphersuite_of_code(v)) == v,
{
}

/// Encoding a ciphersuite and decoding the code point gives back the same
/// ciphersuite, for every ciphersuite in canonical form (a `Custom` value
/// that carries a registered code point decodes to the registered suite).
pub proof fn lemma_ciphersuite_round_trip(cs: Ciphersuite)
    requires
        is_canonical(cs),
    ensures
        ciphersuite_of_code(ciphersuite_code(cs)) == cs,
{
}

/// Decoding always yields a ciphersuite in canonical form.
pub proof fn lemma_decoded_is_canonical(v: u16)
    ensures
        is_canonical(ciphersuite_of_code(v)),
{
}

/// Signature schemes, by their TLS code points.
#[derive(Debug, Clone, Copy, PartialEq, Eq, Structural, Hash)]
pub enum SignatureScheme {
    /// ECDSA_SECP256R1_SHA256 (0x0403)
    ECDSA_SECP256R1_SHA256,
    /// ECDSA_SECP384R1_SHA384 (0x0503)
    ECDSA_SECP384R1_SHA384,
    /// ECDSA_SECP521R1_SHA512 (0x0603)
    ECDSA_SECP521R1_SHA512,
    /// ED25519 (0x0807)
    ED25519,
    /// ED448 (0x0808)
    ED448,
}

/// Convenience tuple struct for an HPKE configuration.
#[derive(Debug, Clone, Copy)]
pub struct HpkeConfig(pub Ciphersuite);

/// An HPKE ciphertext: the KEM output and the AEAD ciphertext.
///
/// ```text
/// struct {
///     opaque kem_output<V>;
///     opaque ciphertext<V>;
/// } HPKECiphertext;
/// ```
#[derive(Debug, PartialEq, Eq, Clone)]
pub struct HpkeCiphertext {
    pub kem_output: Vec<u8>,
    pub ciphertext: Vec<u8>,
}

/// A simple type for HPKE private keys.
#[derive(Debug, Clone)]
pub struct HpkePrivateKey(Vec<u8>);

impl View for HpkePrivateKey {
    type V = Seq<u8>;

    closed spec fn view(&self) -> Seq<u8> {
        self.0@
    }
}

impl From<Vec<u8>> for HpkePrivateKey {
    fn from(bytes: Vec<u8>) -> (k: Self)
        ensures
            k@ == bytes@,
    {
        Self(bytes)
    }
}

impl vstd::std_specs::convert::FromSpecImpl<Vec<u8>> for HpkePrivateKey {
    open spec fn obeys_from_spec() -> bool {
        true
    }

    closed spec fn from_spec(bytes: Vec<u8>) -> HpkePrivateKey {
        HpkePrivateKey(bytes)
    }
}

impl From<&[u8]> for HpkePrivateKey {
    fn from(bytes: &[u8]) -> (k: Self)
        ensures
            k@ == bytes@,
    {
        Self(vstd::slice::slice_to_vec(bytes))
    }
}

/// A key built from a slice holds a fresh copy of its bytes; only its view
/// is determined, so the contract is the `ensures` of `from` itself.
impl vstd::std_specs::convert::FromSpecImpl<&[u8]> for HpkePrivateKey {
    open spec fn obeys_from_spec() -> bool {
        false
    }

    closed spec fn from_spec(bytes: &[u8]) -> HpkePrivateKey {
        choose|k: HpkePrivateKey| k@ == bytes@
    }
}

impl std::ops::Deref for HpkePrivateKey {
    type Target = [u8];

    fn deref(&self) -> (s: &[u8])
        ensures
            s@ == self@,
    {
        self.0.as_slice()
    }
}

/// Helper holding a (private, public) key pair as byte vectors.
#[derive(Debug, Clone)]
pub struct HpkeKeyPair {
    pub private: HpkePrivateKey,
    pub public: Vec<u8>,
}

/// The KEM output of an HPKE sender.
pub type KemOutput = Vec<u8>;

/// A secret exported from an HPKE context.
#[derive(Clone, Debug)]
pub struct ExporterSecret(Vec<u8>);

impl View for ExporterSecret {
    type V = Seq<u8>;

    closed spec fn view(&self) -> Seq<u8> {
        self.0@
    }
}

impl std::ops::Deref for ExporterSecret {
    type Target = [u8];

    fn deref(&self) -> (s: &[u8])
        ensures
            s@ == self@,
    {
        self.0.as_slice()
    }
}

impl From<Vec<u8>> for ExporterSecret {
    fn from(secret: Vec<u8>) -> (s: Self)
        ensures
            s@ == secret@,
    {
        Self(secret)
    }
}

impl vstd::std_specs::convert::FromSpecImpl<Vec<u8>> for ExporterSecret {
    open spec fn obeys_from_spec() -> bool {
        true
    }

    closed spec fn from_spec(secret: Vec<u8>) -> ExporterSecret {
        ExporterSecret(secret)
    }
}

} // verus!
