//! BlakeMAC: a keyed BLAKE3 digest used as a symmetric signature.
use crate::capability::{KeyGenerate, TextSign, TextVerify};
use crate::encoding::{ascii_chars, encode_url_safe, lemma_ascii_utf8, url_safe_text};
use crate::error::CryptoError;
use crate::keys::{byte_array, GeneratedKeys};
use crate::password::{charset, drawn_from, lemma_charset_ascii, process_gen_pass};
use vstd::prelude::*;

verus! {

/// The 32-byte keyed BLAKE3 digest of `data` under `key`.
pub uninterp spec fn blake3_keyed_of(key: Seq<u8>, data: Seq<u8>) -> Seq<u8>;

/// Relies on `blake3::keyed_hash`: the keyed digest, a function of the key
/// and the data alone.
#[verifier::external_body]
fn keyed_digest(key: &[u8; 32], data: &[u8]) -> (r: [u8; 32])
    ensures
        r@ == blake3_keyed_of(key@, data@),
{
    *blake3::keyed_hash(key, data).as_bytes()
}

/// The BlakeMAC signature text: the keyed digest in URL-safe base64.
pub open spec fn blake_signature(key: Seq<u8>, data: Seq<u8>) -> Seq<char> {
    url_safe_text(blake3_keyed_of(key, data))
}

/// What BlakeMAC verification gives: a match exactly when the signature is the same
/// text as the recomputed one.
pub open spec fn blake_verdict(key: Seq<u8>, data: Seq<u8>, signature: Seq<char>) -> Result<
    bool,
    CryptoError,
> {
    Ok(blake_signature(key, data) == signature)
}

/// The canonical name of a BlakeMAC key.
pub open spec fn blake_key_name() -> Seq<char> {
    "blake3.key"@
}

/// A possible BlakeMAC key: 32 password characters from the full set.
pub open spec fn is_blake_key(key: Seq<u8>) -> bool {
    key.len() == 32 && drawn_from(key, charset(true, true, true, true))
}

/// Signs with a 32-byte BlakeMAC key.
pub struct BlakeSign {
    key: [u8; 32],
}

/// Verifies with a 32-byte BlakeMAC key.
pub struct BlakeVerify {
    key: [u8; 32],
}

/// Generates BlakeMAC keys.
pub struct BlakeGenerate {}

impl View for BlakeSign {
    type V = Seq<u8>;

    closed spec fn view(&self) -> Seq<u8> {
        self.key@
    }
}

impl View for BlakeVerify {
    type V = Seq<u8>;

    closed spec fn view(&self) -> Seq<u8> {
        self.key@
    }
}

impl BlakeSign {
    pub fn new(key: [u8; 32]) -> (r: Self)
        ensures
            r@ == key@,
    {
        BlakeSign { key }
    }

    /// A signer from raw key bytes, which must be exactly 32.
    pub fn try_new(key: &[u8]) -> (r: Result<Self, CryptoError>)
        ensures
            match r {
                Ok(s) => key@.len() == 32 && s@ == key@,
                Err(e) => key@.len() != 32 && e == CryptoError::KeyLengthMismatch,
            },
    {
        match byte_array::<32>(key) {
            Some(k) => Ok(BlakeSign::new(k)),
            None => Err(CryptoError::KeyLengthMismatch),
        }
    }
}

impl BlakeVerify {
    pub fn new(key: [u8; 32]) -> (r: Self)
        ensures
            r@ == key@,
    {
        BlakeVerify { key }
    }

    /// A verifier from raw key bytes, which must be exactly 32.
    pub fn try_new(key: &[u8]) -> (r: Result<Self, CryptoError>)
        ensures
            match r {
                Ok(v) => key@.len() == 32 && v@ == key@,
                Err(e) => key@.len() != 32 && e == CryptoError::KeyLengthMismatch,
            },
    {
        match byte_array::<32>(key) {
            Some(k) => Ok(BlakeVerify::new(k)),
            None => Err(CryptoError::KeyLengthMismatch),
        }
    }
}

impl TextSign for BlakeSign {
    open spec fn signature_of(&self, data: Seq<u8>) -> Seq<char> {
        blake_signature(self@, data)
    }

    fn sign(&self, data: &[u8]) -> (r: Result<String, CryptoError>)
        ensures
            r matches Ok(s) && blake_verdict(self@, data@, s@) == Ok::<bool, CryptoError>(true),
            blake3_keyed_of(self@, data@).len() == 32,
    {
        let digest = keyed_digest(&self.key, data);
        Ok(encode_url_safe(digest.as_slice()))
    }
}

impl TextVerify for BlakeVerify {
    open spec fn verdict(&self, data: Seq<u8>, signature: Seq<char>) -> Result<bool, CryptoError> {
        blake_verdict(self@, data, signature)
    }

    fn verify(&self, data: &[u8], signature: &str) -> (r: Result<bool, CryptoError>) {
        let digest = keyed_digest(&self.key, data);
        let expected = encode_url_safe(digest.as_slice());
        let given: String = signature.to_owned();
        Ok(expected == given)
    }
}

impl KeyGenerate for BlakeGenerate {
    open spec fn is_generated(&self, keys: Seq<(Seq<char>, Seq<u8>)>) -> bool {
        keys.len() == 1 && keys[0].0 == blake_key_name() && is_blake_key(keys[0].1)
    }

    fn generate(&self) -> (r: Result<GeneratedKeys, CryptoError>) {
        let passwords = process_gen_pass(32, 1, true, true, true, true).unwrap();
        let password = &passwords[0];
        let ghost p = choose|p: Seq<u8>|
            p.len() == 32 && drawn_from(p, charset(true, true, true, true)) && #[trigger] ascii_chars(p)
                == password@;
        let bytes = vstd::slice::slice_to_vec(password.as_str().as_bytes());
        proof {
            lemma_charset_ascii(true, true, true, true, p);
            lemma_ascii_utf8(p);
            vstd::utf8::decode_utf8_encode_utf8(p);
        }
        let mut entries: Vec<(String, Vec<u8>)> = Vec::new();
        entries.push(("blake3.key".to_owned(), bytes));
        let keys = GeneratedKeys::from_entries(entries);
        assert(keys@[0].1 == p);
        Ok(keys)
    }
}

} // verus!
