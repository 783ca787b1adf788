//! The capability factory: maps an algorithm and a capability to the
//! implementation, or fails when the algorithm lacks the capability or the
//! key bytes have the wrong length.
use crate::blake::{
    blake3_keyed_of, blake_key_name, blake_signature, blake_verdict, is_blake_key, BlakeGenerate, BlakeSign,
    BlakeVerify,
};
use crate::capability::{KeyGenerate, TextSign, TextVerify};
use crate::chacha::{
    chacha_key_name, key_part, nonce_part, seals_and_opens, ChaCha20Poly1305EnDe,
    ChaCha20Poly1305Generator, MATERIAL_LEN,
};
use crate::ed25519::{
    ed25519_public_name, ed25519_public_of, ed25519_secret_name, ed25519_signature,
    ed25519_signature_of, ed25519_valid_public, ed25519_verdict, signs_for, Ed25519Gen,
    Ed25519Signer, Ed25519Verifier,
};
use crate::encoding::{
    b64_decode, b64_len, lemma_b64_decode_encode, lemma_b64_len, lemma_b64_text_bytes,
};
use vstd::utf8::encode_utf8;
use crate::error::CryptoError;
use crate::format::CryptFormat;
use crate::keys::{byte_array, GeneratedKeys};
use vstd::prelude::*;

verus! {

/// The length of a signing or verifying key of the algorithm, if it signs.
pub open spec fn signing_key_len(format: CryptFormat) -> Option<nat> {
    match format {
        CryptFormat::ChaCha20Poly1305 => None,
        CryptFormat::Blake => Some(32),
        CryptFormat::Ed25519 => Some(32),
    }
}

/// The length of the key material of the algorithm, if it encrypts.
pub open spec fn cipher_key_len(format: CryptFormat) -> Option<nat> {
    match format {
        CryptFormat::ChaCha20Poly1305 => Some(MATERIAL_LEN as nat),
        CryptFormat::Blake => None,
        CryptFormat::Ed25519 => None,
    }
}

/// Whether a capability can be built from `key`, given the key length that
/// the algorithm requires for it (`None`: it lacks the capability).
pub open spec fn construction(required: Option<nat>, key: Seq<u8>) -> Result<(), CryptoError> {
    match required {
        None => Err(CryptoError::UnsupportedOperation),
        Some(n) => if key.len() == n {
            Ok(())
        } else {
            Err(CryptoError::KeyLengthMismatch)
        },
    }
}

/// Whether a verifier can be built from `key`: the length must be right,
/// and an Ed25519 key must be a valid public key.
pub open spec fn verifier_construction(format: CryptFormat, key: Seq<u8>) -> Result<(), CryptoError> {
    match construction(signing_key_len(format), key) {
        Err(e) => Err(e),
        Ok(_) => if format == CryptFormat::Ed25519 && !ed25519_valid_public(key) {
            Err(CryptoError::InvalidKey)
        } else {
            Ok(())
        },
    }
}

/// The raw signature bytes that the algorithm produces with `key` over `data`.
pub open spec fn signature_bytes(format: CryptFormat, key: Seq<u8>, data: Seq<u8>) -> Seq<u8> {
    match format {
        CryptFormat::Blake => blake3_keyed_of(key, data),
        CryptFormat::Ed25519 => ed25519_signature_of(key, data),
        CryptFormat::ChaCha20Poly1305 => Seq::empty(),
    }
}

/// The length of the raw signature bytes: a 32-byte digest or a 64-byte
/// Ed25519 signature.
pub open spec fn signature_len(format: CryptFormat) -> nat {
    match format {
        CryptFormat::Ed25519 => 64,
        _ => 32,
    }
}

/// The signature text that the algorithm produces with `key` over `data`.
pub open spec fn signature_text(format: CryptFormat, key: Seq<u8>, data: Seq<u8>) -> Seq<char> {
    match format {
        CryptFormat::Blake => blake_signature(key, data),
        CryptFormat::Ed25519 => ed25519_signature(key, data),
        CryptFormat::ChaCha20Poly1305 => Seq::empty(),
    }
}

/// The verdict of the algorithm with `key` on `signature` over `data`.
pub open spec fn signature_verdict(
    format: CryptFormat,
    key: Seq<u8>,
    data: Seq<u8>,
    signature: Seq<char>,
) -> Result<bool, CryptoError> {
    match format {
        CryptFormat::Blake => blake_verdict(key, data, signature),
        CryptFormat::Ed25519 => ed25519_verdict(key, data, signature),
        CryptFormat::ChaCha20Poly1305 => Err(CryptoError::UnsupportedOperation),
    }
}

/// The key that verifies what `signing_key` signs: the same key for the
/// symmetric MAC, the public key of the seed for Ed25519.
pub open spec fn verifying_key_of(format: CryptFormat, signing_key: Seq<u8>) -> Seq<u8> {
    match format {
        CryptFormat::Ed25519 => ed25519_public_of(signing_key),
        _ => signing_key,
    }
}

/// Whether `keys` is a possible outcome of one generate call for the
/// algorithm.
pub open spec fn generated_for(format: CryptFormat, keys: Seq<(Seq<char>, Seq<u8>)>) -> bool {
    match format {
        CryptFormat::Blake => keys.len() == 1 && keys[0].0 == blake_key_name() && is_blake_key(
            keys[0].1,
        ),
        CryptFormat::Ed25519 => {
            &&& keys.len() == 2
            &&& keys[0].0 == ed25519_public_name()
            &&& keys[1].0 == ed25519_secret_name()
            &&& keys[0].1.len() == 32
            &&& keys[1].1.len() == 32
            &&& keys[0].1 == ed25519_public_of(keys[1].1)
            &&& ed25519_valid_public(keys[0].1)
            &&& signs_for(keys[1].1, keys[0].1)
        },
        CryptFormat::ChaCha20Poly1305 => {
            &&& keys.len() == 1
            &&& keys[0].0 == chacha_key_name()
            &&& keys[0].1.len() == MATERIAL_LEN
            &&& seals_and_opens(key_part(keys[0].1), nonce_part(keys[0].1))
        },
    }
}

/// A signer of one of the algorithms that sign.
pub enum TextSigner {
    Blake(BlakeSign),
    Ed25519(Ed25519Signer),
}

/// A verifier of one of the algorithms that sign.
pub enum TextVerifier {
    Blake(BlakeVerify),
    Ed25519(Ed25519Verifier),
}

/// A key generator of any algorithm.
pub enum KeyGenerator {
    Blake(BlakeGenerate),
    Ed25519(Ed25519Gen),
    ChaCha20Poly1305(ChaCha20Poly1305Generator),
}

impl View for TextSigner {
    type V = (CryptFormat, Seq<u8>);

    open spec fn view(&self) -> (CryptFormat, Seq<u8>) {
        match self {
            TextSigner::Blake(s) => (CryptFormat::Blake, s@),
            TextSigner::Ed25519(s) => (CryptFormat::Ed25519, s@),
        }
    }
}

impl View for TextVerifier {
    type V = (CryptFormat, Seq<u8>);

    open spec fn view(&self) -> (CryptFormat, Seq<u8>) {
        match self {
            TextVerifier::Blake(v) => (CryptFormat::Blake, v@),
            TextVerifier::Ed25519(v) => (CryptFormat::Ed25519, v@),
        }
    }
}

impl View for KeyGenerator {
    type V = CryptFormat;

    open spec fn view(&self) -> CryptFormat {
        match self {
            KeyGenerator::Blake(_) => CryptFormat::Blake,
            KeyGenerator::Ed25519(_) => CryptFormat::Ed25519,
            KeyGenerator::ChaCha20Poly1305(_) => CryptFormat::ChaCha20Poly1305,
        }
    }
}

impl TextSign for TextSigner {
    open spec fn signature_of(&self, data: Seq<u8>) -> Seq<char> {
        signature_text(self@.0, self@.1, data)
    }

    fn sign(&self, data: &[u8]) -> (r: Result<String, CryptoError>)
        ensures
            r matches Ok(s) && signature_verdict(
                self@.0,
                verifying_key_of(self@.0, self@.1),
                data@,
                s@,
            ) == Ok::<bool, CryptoError>(true) && b64_decode(encode_utf8(s@), true, false) == Some(
                signature_bytes(self@.0, self@.1, data@),
            ) && s@.len() == b64_len(signature_len(self@.0) as int, false),
            signature_bytes(self@.0, self@.1, data@).len() == signature_len(self@.0),
    {
        let r = match self {
            TextSigner::Blake(s) => s.sign(data),
            TextSigner::Ed25519(s) => s.sign(data),
        };
        proof {
            let b = signature_bytes(self@.0, self@.1, data@);
            lemma_b64_text_bytes(b, true, false);
            lemma_b64_decode_encode(b, true, false);
            lemma_b64_len(b, true, false);
        }
        r
    }
}

impl TextVerify for TextVerifier {
    open spec fn verdict(&self, data: Seq<u8>, signature: Seq<char>) -> Result<bool, CryptoError> {
        signature_verdict(self@.0, self@.1, data, signature)
    }

    fn verify(&self, data: &[u8], signature: &str) -> (r: Result<bool, CryptoError>) {
        match self {
            TextVerifier::Blake(v) => v.verify(data, signature),
            TextVerifier::Ed25519(v) => v.verify(data, signature),
        }
    }
}

impl KeyGenerate for KeyGenerator {
    open spec fn is_generated(&self, keys: Seq<(Seq<char>, Seq<u8>)>) -> bool {
        generated_for(self@, keys)
    }

    fn generate(&self) -> (r: Result<GeneratedKeys, CryptoError>) {
        match self {
            KeyGenerator::Blake(g) => g.generate(),
            KeyGenerator::Ed25519(g) => g.generate(),
            KeyGenerator::ChaCha20Poly1305(g) => g.generate(),
        }
    }
}

/// A signer for the algorithm from its raw key bytes.
pub fn create_signer(format: CryptFormat, key: Vec<u8>) -> (r: Result<TextSigner, CryptoError>)
    ensures
        match r {
            Ok(s) => construction(signing_key_len(format), key@) == Ok::<(), CryptoError>(())
                && s@ == (format, key@),
            Err(e) => construction(signing_key_len(format), key@) == Err::<(), CryptoError>(e),
        },
{
    match format {
        CryptFormat::Blake => match byte_array::<32>(key.as_slice()) {
            Some(k) => Ok(TextSigner::Blake(BlakeSign::new(k))),
            None => Err(CryptoError::KeyLengthMismatch),
        },
        CryptFormat::Ed25519 => match byte_array::<32>(key.as_slice()) {
            Some(k) => Ok(TextSigner::Ed25519(Ed25519Signer::new(k))),
            None => Err(CryptoError::KeyLengthMismatch),
        },
        CryptFormat::ChaCha20Poly1305 => Err(CryptoError::UnsupportedOperation),
    }
}

/// A verifier for the algorithm from its raw key bytes.
pub fn create_verifier(format: CryptFormat, key: Vec<u8>) -> (r: Result<TextVerifier, CryptoError>)
    ensures
        match r {
            Ok(v) => verifier_construction(format, key@) == Ok::<(), CryptoError>(()) && v@ == (
                format,
                key@,
            ),
            Err(e) => verifier_construction(format, key@) == Err::<(), CryptoError>(e),
        },
{
    match format {
        CryptFormat::Blake => match byte_array::<32>(key.as_slice()) {
            Some(k) => Ok(TextVerifier::Blake(BlakeVerify::new(k))),
            None => Err(CryptoError::KeyLengthMismatch),
        },
        CryptFormat::Ed25519 => match Ed25519Verifier::try_new(key.as_slice()) {
            Ok(v) => Ok(TextVerifier::Ed25519(v)),
            Err(e) => Err(e),
        },
        CryptFormat::ChaCha20Poly1305 => Err(CryptoError::UnsupportedOperation),
    }
}

/// A key generator for the algorithm; every algorithm generates keys.
pub fn create_generator(format: CryptFormat) -> (r: Result<KeyGenerator, CryptoError>)
    ensures
        r matches Ok(g) && g@ == format,
{
    match format {
        CryptFormat::Blake => Ok(KeyGenerator::Blake(BlakeGenerate {  })),
        CryptFormat::Ed25519 => Ok(KeyGenerator::Ed25519(Ed25519Gen::new())),
        CryptFormat::ChaCha20Poly1305 => Ok(
            KeyGenerator::ChaCha20Poly1305(ChaCha20Poly1305Generator::new()),
        ),
    }
}

/// An encryptor for the algorithm from its raw key material.
pub fn create_encryptor(format: CryptFormat, key: Vec<u8>) -> (r: Result<
    ChaCha20Poly1305EnDe,
    CryptoError,
>)
    ensures
        match r {
            Ok(c) => construction(cipher_key_len(format), key@) == Ok::<(), CryptoError>(())
                && c@ == key@,
            Err(e) => construction(cipher_key_len(format), key@) == Err::<(), CryptoError>(e),
        },
{
    match format {
        CryptFormat::ChaCha20Poly1305 => ChaCha20Poly1305EnDe::try_new(key.as_slice()),
        _ => Err(CryptoError::UnsupportedOperation),
    }
}

/// A decryptor for the algorithm from its raw key material.
pub fn create_decryptor(format: CryptFormat, key: Vec<u8>) -> (r: Result<
    ChaCha20Poly1305EnDe,
    CryptoError,
>)
    ensures
        match r {
            Ok(c) => construction(cipher_key_len(format), key@) == Ok::<(), CryptoError>(())
                && c@ == key@,
            Err(e) => construction(cipher_key_len(format), key@) == Err::<(), CryptoError>(e),
        },
{
    match format {
        CryptFormat::ChaCha20Poly1305 => ChaCha20Poly1305EnDe::try_new(key.as_slice()),
        _ => Err(CryptoError::UnsupportedOperation),
    }
}

} // verus!
