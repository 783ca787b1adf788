//! Ed25519: asymmetric signatures with a 32-byte private seed and a 32-byte
//! public key.
use crate::capability::{KeyGenerate, TextSign, TextVerify};
use crate::encoding::{
    b64_decode, decode_url_safe, encode_url_safe, lemma_b64_decode_encode, lemma_b64_text_bytes,
    url_safe_text,
};
use crate::error::CryptoError;
use crate::keys::{byte_array, GeneratedKeys};
use vstd::prelude::*;
use vstd::utf8::encode_utf8;

verus! {

/// The 64-byte Ed25519 signature of `message` under the private `seed`.
pub uninterp spec fn ed25519_signature_of(seed: Seq<u8>, message: Seq<u8>) -> Seq<u8>;

/// The 32-byte public key of the private `seed`.
pub uninterp spec fn ed25519_public_of(seed: Seq<u8>) -> Seq<u8>;

/// Whether `public` is a valid public key under which `signature` is a
/// valid signature of `message`.
pub uninterp spec fn ed25519_accepts(public: Seq<u8>, message: Seq<u8>, signature: Seq<u8>) -> bool;

/// Whether `public` is the compressed form of a point on the curve, that
/// is a public key at all.
pub uninterp spec fn ed25519_valid_public(public: Seq<u8>) -> bool;

/// Whether the signatures that `seed` makes are 64 bytes long and accepted
/// under `public`, for every message.
pub open spec fn signs_for(seed: Seq<u8>, public: Seq<u8>) -> bool {
    forall|m: Seq<u8>|
        #![trigger ed25519_signature_of(seed, m)]
        ed25519_signature_of(seed, m).len() == 64 && ed25519_accepts(
            public,
            m,
            ed25519_signature_of(seed, m),
        )
}

/// Relies on `ed25519_dalek`'s `VerifyingKey::from_bytes`: it succeeds
/// exactly on the compressed form of a curve point.
#[verifier::external_body]
fn is_valid_public(public: &[u8; 32]) -> (r: bool)
    ensures
        r == ed25519_valid_public(public@),
{
    ed25519_dalek::VerifyingKey::from_bytes(public).is_ok()
}

/// Relies on `ed25519_dalek`'s `SigningKey::from_bytes`, `Signer::sign` and
/// `Signature::to_bytes`: RFC 8032 signatures are deterministic, and one made
/// with a seed is accepted under that seed's public key.
#[verifier::external_body]
fn sign_with_seed(seed: &[u8; 32], message: &[u8]) -> (r: [u8; 64])
    ensures
        r@ == ed25519_signature_of(seed@, message@),
        ed25519_accepts(ed25519_public_of(seed@), message@, r@),
{
    ed25519_dalek::Signer::sign(&ed25519_dalek::SigningKey::from_bytes(seed), message).to_bytes()
}

/// Relies on `ed25519_dalek`'s `VerifyingKey::from_bytes`,
/// `Signature::from_bytes` and `Verifier::verify`; bytes that are not a
/// valid public key accept nothing.
#[verifier::external_body]
fn verify_with_public(public: &[u8; 32], message: &[u8], signature: &[u8; 64]) -> (r: bool)
    ensures
        r == ed25519_accepts(public@, message@, signature@),
        r ==> ed25519_valid_public(public@),
{
    match ed25519_dalek::VerifyingKey::from_bytes(public) {
        Ok(k) => ed25519_dalek::Verifier::verify(
            &k,
            message,
            &ed25519_dalek::Signature::from_bytes(signature),
        ).is_ok(),
        Err(_) => false,
    }
}

/// Relies on `ed25519_dalek`'s `SigningKey::generate` with the operating
/// system's random source, `SigningKey::to_bytes` and
/// `SigningKey::verifying_key`: a fresh seed and its public key. The public
/// key is the compressed form of a curve point, so it decompresses, and it
/// accepts every signature the seed makes (RFC 8032 signatures are 64 bytes).
#[verifier::external_body]
fn fresh_keypair() -> (r: ([u8; 32], [u8; 32]))
    ensures
        r.1@ == ed25519_public_of(r.0@),
        ed25519_valid_public(r.1@),
        signs_for(r.0@, r.1@),
{
    let sk = ed25519_dalek::SigningKey::generate(&mut rand::rngs::OsRng);
    (sk.to_bytes(), sk.verifying_key().to_bytes())
}

/// The Ed25519 signature text: the signature in URL-safe base64.
pub open spec fn ed25519_signature(seed: Seq<u8>, data: Seq<u8>) -> Seq<char> {
    url_safe_text(ed25519_signature_of(seed, data))
}

/// What Ed25519 verification gives: the signature text must decode, the decoded bytes
/// must be exactly 64, and then they either verify or they do not.
pub open spec fn ed25519_verdict(public: Seq<u8>, data: Seq<u8>, signature: Seq<char>) -> Result<
    bool,
    CryptoError,
> {
    match b64_decode(encode_utf8(signature), true, false) {
        None => Err(CryptoError::InvalidEncoding),
        Some(b) => if b.len() != 64 {
            Err(CryptoError::InvalidSignatureLength)
        } else {
            Ok(ed25519_accepts(public, data, b))
        },
    }
}

/// The canonical name of an Ed25519 private seed.
pub open spec fn ed25519_secret_name() -> Seq<char> {
    "ed25519.sk"@
}

/// The canonical name of an Ed25519 public key.
pub open spec fn ed25519_public_name() -> Seq<char> {
    "ed25519.pk"@
}

/// Generates Ed25519 keypairs.
pub struct Ed25519Gen {}

/// Signs with a 32-byte private seed.
pub struct Ed25519Signer {
    key: [u8; 32],
}

/// Verifies with a 32-byte public key.
pub struct Ed25519Verifier {
    key: [u8; 32],
}

impl View for Ed25519Signer {
    type V = Seq<u8>;

    closed spec fn view(&self) -> Seq<u8> {
        self.key@
    }
}

impl View for Ed25519Verifier {
    type V = Seq<u8>;

    closed spec fn view(&self) -> Seq<u8> {
        self.key@
    }
}

impl Ed25519Gen {
    pub fn new() -> Self {
        Ed25519Gen {  }
    }
}

impl Ed25519Signer {
    pub fn new(key: [u8; 32]) -> (r: Self)
        ensures
            r@ == key@,
    {
        Ed25519Signer { key }
    }
}

impl Ed25519Verifier {
    /// A verifier for a valid public key.
    pub fn new(key: [u8; 32]) -> (r: Self)
        requires
            ed25519_valid_public(key@),
        ensures
            r@ == key@,
    {
        Ed25519Verifier { key }
    }

    /// A verifier from raw key bytes: exactly 32 of them, forming a valid
    /// public key.
    pub fn try_new(key: &[u8]) -> (r: Result<Self, CryptoError>)
        ensures
            match r {
                Ok(v) => key@.len() == 32 && ed25519_valid_public(key@) && v@ == key@,
                Err(e) => if key@.len() != 32 {
                    e == CryptoError::KeyLengthMismatch
                } else {
                    !ed25519_valid_public(key@) && e == CryptoError::InvalidKey
                },
            },
    {
        let k = match byte_array::<32>(key) {
            Some(k) => k,
            None => return Err(CryptoError::KeyLengthMismatch),
        };
        if is_valid_public(&k) {
            Ok(Ed25519Verifier::new(k))
        } else {
            Err(CryptoError::InvalidKey)
        }
    }
}

impl KeyGenerate for Ed25519Gen {
    open spec fn is_generated(&self, keys: Seq<(Seq<char>, Seq<u8>)>) -> bool {
        &&& keys.len() == 2
        &&& keys[0].0 == ed25519_public_name()
        &&& keys[1].0 == ed25519_secret_name()
        &&& keys[0].1.len() == 32
        &&& keys[1].1.len() == 32
        &&& keys[0].1 == ed25519_public_of(keys[1].1)
        &&& ed25519_valid_public(keys[0].1)
        &&& signs_for(keys[1].1, keys[0].1)
    }

    fn generate(&self) -> (r: Result<GeneratedKeys, CryptoError>) {
        let (sk, pk) = fresh_keypair();
        let mut entries: Vec<(String, Vec<u8>)> = Vec::new();
        entries.push(("ed25519.pk".to_owned(), vstd::slice::slice_to_vec(pk.as_slice())));
        entries.push(("ed25519.sk".to_owned(), vstd::slice::slice_to_vec(sk.as_slice())));
        let keys = GeneratedKeys::from_entries(entries);
        proof {
            reveal_strlit("ed25519.pk");
            reveal_strlit("ed25519.sk");
            assert(keys@[0].0[8] != keys@[1].0[8]);
        }
        Ok(keys)
    }
}

impl TextSign for Ed25519Signer {
    open spec fn signature_of(&self, data: Seq<u8>) -> Seq<char> {
        ed25519_signature(self@, data)
    }

    fn sign(&self, data: &[u8]) -> (r: Result<String, CryptoError>)
        ensures
            r matches Ok(s) && ed25519_verdict(ed25519_public_of(self@), data@, s@) == Ok::<
                bool,
                CryptoError,
            >(true),
            ed25519_signature_of(self@, data@).len() == 64,
    {
        let signature = sign_with_seed(&self.key, data);
        let text = encode_url_safe(signature.as_slice());
        proof {
            lemma_b64_text_bytes(signature@, true, false);
            lemma_b64_decode_encode(signature@, true, false);
        }
        Ok(text)
    }
}

impl TextVerify for Ed25519Verifier {
    open spec fn verdict(&self, data: Seq<u8>, signature: Seq<char>) -> Result<bool, CryptoError> {
        ed25519_verdict(self@, data, signature)
    }

    fn verify(&self, data: &[u8], signature: &str) -> (r: Result<bool, CryptoError>) {
        let decoded = match decode_url_safe(signature.as_bytes()) {
            Ok(v) => v,
            Err(_) => return Err(CryptoError::InvalidEncoding),
        };
        proof {
            lemma_b64_decode_encode(decoded@, true, false);
        }
        let bytes = match byte_array::<64>(decoded.as_slice()) {
            Some(a) => a,
            None => return Err(CryptoError::InvalidSignatureLength),
        };
        Ok(verify_with_public(&self.key, data, &bytes))
    }
}

} // verus!
