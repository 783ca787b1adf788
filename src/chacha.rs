//! ChaCha20-Poly1305: authenticated encryption under key material that
//! holds a 12-byte nonce followed by a 32-byte key.
//!
//! The nonce is fixed when the material is generated and reused for every
//! message under that key. Reusing a nonce under one key breaks the
//! confidentiality and integrity of those messages; the layout is kept for
//! compatibility with material that already exists.
use crate::capability::{KeyGenerate, TextDecrypt, TextEncrypt};
use crate::encoding::{
    b64_decode, decode_url_safe, encodable, encode_url_safe, lemma_b64_decode_encode,
    lemma_b64_text_bytes, url_safe_text,
};
use crate::error::CryptoError;
use crate::keys::{byte_array, GeneratedKeys};
use vstd::prelude::*;
use vstd::utf8::encode_utf8;

verus! {

/// The length of the nonce at the front of the key material.
pub const NONCE_LEN: usize = 12;

/// The length of the cipher key after the nonce.
pub const CIPHER_KEY_LEN: usize = 32;

/// The length of the whole key material.
pub const MATERIAL_LEN: usize = 44;

/// The largest number of 64-byte blocks the cipher accepts, plus one.
pub const MAX_BLOCKS: u64 = 0xffff_ffff;

/// The ciphertext and 16-byte tag that sealing `plaintext` gives.
pub uninterp spec fn chacha_sealed_of(key: Seq<u8>, nonce: Seq<u8>, plaintext: Seq<u8>) -> Seq<u8>;

/// The plaintext that `ciphertext` opens to, if its tag is authentic.
pub uninterp spec fn chacha_opened_of(key: Seq<u8>, nonce: Seq<u8>, ciphertext: Seq<u8>) -> Option<
    Seq<u8>,
>;

/// The error that `aead` reports for a failed seal or open.
#[verifier::external_type_specification]
#[verifier::external_body]
pub struct ExAeadError(chacha20poly1305::Error);

/// Relies on `ChaCha20Poly1305::new` and `Aead::encrypt` with no associated
/// data: it fails only when the plaintext reaches 2^32 - 1 blocks of 64
/// bytes; otherwise it appends the 16-byte tag, and `decrypt` under the same
/// key and nonce opens the result to the plaintext.
#[verifier::external_body]
fn seal(key: &[u8; 32], nonce: &[u8; 12], plaintext: &[u8]) -> (r: Result<
    Vec<u8>,
    chacha20poly1305::Error,
>)
    ensures
        r is Ok <==> plaintext@.len() / 64 < MAX_BLOCKS,
        r matches Ok(c) ==> c@ == chacha_sealed_of(key@, nonce@, plaintext@) && c@.len()
            == plaintext@.len() + 16 && chacha_opened_of(key@, nonce@, c@) == Some(plaintext@),
{
    let cipher = <chacha20poly1305::ChaCha20Poly1305 as chacha20poly1305::KeyInit>::new(
        &chacha20poly1305::Key::from(*key),
    );
    chacha20poly1305::aead::Aead::encrypt(&cipher, &chacha20poly1305::Nonce::from(*nonce), plaintext)
}

/// Relies on `ChaCha20Poly1305::new` and `Aead::decrypt` with no associated
/// data: the plaintext when the tag is authentic, an error otherwise.
#[verifier::external_body]
fn open(key: &[u8; 32], nonce: &[u8; 12], ciphertext: &[u8]) -> (r: Result<
    Vec<u8>,
    chacha20poly1305::Error,
>)
    ensures
        match r {
            Ok(p) => chacha_opened_of(key@, nonce@, ciphertext@) == Some(p@),
            Err(_) => chacha_opened_of(key@, nonce@, ciphertext@) is None,
        },
        ciphertext@.len() < 16 ==> r is Err,
{
    let cipher = <chacha20poly1305::ChaCha20Poly1305 as chacha20poly1305::KeyInit>::new(
        &chacha20poly1305::Key::from(*key),
    );
    chacha20poly1305::aead::Aead::decrypt(&cipher, &chacha20poly1305::Nonce::from(*nonce), ciphertext)
}

/// Whether, under `key` and `nonce`, every plaintext that the cipher accepts
/// seals to 16 more bytes that open back to it.
pub open spec fn seals_and_opens(key: Seq<u8>, nonce: Seq<u8>) -> bool {
    forall|p: Seq<u8>|
        #![trigger chacha_sealed_of(key, nonce, p)]
        p.len() / 64 < MAX_BLOCKS ==> chacha_sealed_of(key, nonce, p).len() == p.len() + 16
            && chacha_opened_of(key, nonce, chacha_sealed_of(key, nonce, p)) == Some(p)
}

/// Relies on `KeyInit::generate_key` of `ChaCha20Poly1305` with the
/// operating system's random source: a fresh 32-byte key, under which
/// `Aead::encrypt` and `Aead::decrypt` with any 12-byte nonce are inverse
/// (the same facts that `seal` states of each call).
#[verifier::external_body]
fn fresh_cipher_key() -> (r: [u8; 32])
    ensures
        forall|n: Seq<u8>| n.len() == 12 ==> #[trigger] seals_and_opens(r@, n),
{
    <chacha20poly1305::ChaCha20Poly1305 as chacha20poly1305::KeyInit>::generate_key(
        &mut chacha20poly1305::aead::OsRng,
    ).into()
}

/// Relies on `AeadCore::generate_nonce` of `ChaCha20Poly1305` with the
/// operating system's random source: a fresh 12-byte nonce.
#[verifier::external_body]
fn fresh_nonce() -> (r: [u8; 12]) {
    <chacha20poly1305::ChaCha20Poly1305 as chacha20poly1305::AeadCore>::generate_nonce(
        &mut chacha20poly1305::aead::OsRng,
    ).into()
}

/// The nonce: the first 12 bytes of the key material.
pub open spec fn nonce_part(material: Seq<u8>) -> Seq<u8> {
    material.subrange(0, NONCE_LEN as int)
}

/// The cipher key: the 32 bytes after the nonce.
pub open spec fn key_part(material: Seq<u8>) -> Seq<u8> {
    material.subrange(NONCE_LEN as int, MATERIAL_LEN as int)
}

/// Whether a plaintext of `n` bytes can be sealed and its ciphertext
/// encoded.
pub open spec fn can_seal(n: nat) -> bool {
    n / 64 < MAX_BLOCKS && encodable(n + 16int, false)
}

/// The ciphertext text for `data` under the key material.
pub open spec fn chacha_ciphertext(material: Seq<u8>, data: Seq<u8>) -> Seq<char> {
    url_safe_text(chacha_sealed_of(key_part(material), nonce_part(material), data))
}

/// What decrypting the ciphertext text `text` gives under the key material:
/// the text must decode, then the tag must be authentic.
pub open spec fn chacha_plaintext(material: Seq<u8>, text: Seq<u8>) -> Result<Seq<u8>, CryptoError> {
    match b64_decode(text, true, false) {
        None => Err(CryptoError::InvalidEncoding),
        Some(c) => match chacha_opened_of(key_part(material), nonce_part(material), c) {
            None => Err(CryptoError::AuthenticationFailed),
            Some(p) => Ok(p),
        },
    }
}

/// The canonical name of ChaCha20-Poly1305 key material.
pub open spec fn chacha_key_name() -> Seq<char> {
    "chacha20poly1305.key"@
}

/// Encrypts and decrypts under one nonce and key.
pub struct ChaCha20Poly1305EnDe {
    nonce: [u8; 12],
    key: [u8; 32],
}

/// Generates ChaCha20-Poly1305 key material.
pub struct ChaCha20Poly1305Generator {}

impl View for ChaCha20Poly1305EnDe {
    type V = Seq<u8>;

    /// The key material: nonce, then key.
    closed spec fn view(&self) -> Seq<u8> {
        self.nonce@ + self.key@
    }
}

impl ChaCha20Poly1305EnDe {
    /// A cipher from 44 bytes of key material.
    pub fn try_new(nonce_key: &[u8]) -> (r: Result<Self, CryptoError>)
        ensures
            match r {
                Ok(c) => nonce_key@.len() == MATERIAL_LEN && c@ == nonce_key@,
                Err(e) => nonce_key@.len() != MATERIAL_LEN && e == CryptoError::KeyLengthMismatch,
            },
    {
        let (nonce, key) = ChaCha20Poly1305Generator::nonce_key(nonce_key)?;
        let r = ChaCha20Poly1305EnDe { nonce, key };
        assert(r@ =~= nonce_key@);
        Ok(r)
    }
}

impl ChaCha20Poly1305Generator {
    pub fn new() -> Self {
        ChaCha20Poly1305Generator {  }
    }

    /// Splits 44 bytes of key material into its nonce and its key.
    pub fn nonce_key(nonce_key: &[u8]) -> (r: Result<([u8; 12], [u8; 32]), CryptoError>)
        ensures
            match r {
                Ok((n, k)) => nonce_key@.len() == MATERIAL_LEN && n@ == nonce_part(nonce_key@) && k@
                    == key_part(nonce_key@),
                Err(e) => nonce_key@.len() != MATERIAL_LEN && e == CryptoError::KeyLengthMismatch,
            },
    {
        if nonce_key.len() != MATERIAL_LEN {
            return Err(CryptoError::KeyLengthMismatch);
        }
        let nonce = byte_array::<12>(vstd::slice::slice_subrange(nonce_key, 0, NONCE_LEN)).unwrap();
        let key = byte_array::<32>(
            vstd::slice::slice_subrange(nonce_key, NONCE_LEN, MATERIAL_LEN),
        ).unwrap();
        Ok((nonce, key))
    }
}

impl TextEncrypt for ChaCha20Poly1305EnDe {
    open spec fn can_encrypt(&self, n: nat) -> bool {
        can_seal(n)
    }

    open spec fn ciphertext_of(&self, data: Seq<u8>) -> Seq<char> {
        chacha_ciphertext(self@, data)
    }

    fn encrypt(&self, data: &[u8]) -> (r: Result<String, CryptoError>)
        ensures
            r matches Ok(s) && chacha_plaintext(self@, encode_utf8(s@)) == Ok::<
                Seq<u8>,
                CryptoError,
            >(data@) && b64_decode(encode_utf8(s@), true, false) == Some(
                chacha_sealed_of(key_part(self@), nonce_part(self@), data@),
            ),
            chacha_sealed_of(key_part(self@), nonce_part(self@), data@).len() == data@.len() + 16,
    {
        proof {
            assert(nonce_part(self@) =~= self.nonce@);
            assert(key_part(self@) =~= self.key@);
        }
        let sealed = seal(&self.key, &self.nonce, data).unwrap();
        let text = encode_url_safe(sealed.as_slice());
        proof {
            lemma_b64_text_bytes(sealed@, true, false);
            lemma_b64_decode_encode(sealed@, true, false);
        }
        Ok(text)
    }
}

impl TextDecrypt for ChaCha20Poly1305EnDe {
    open spec fn plaintext_of(&self, data: Seq<u8>) -> Result<Seq<u8>, CryptoError> {
        chacha_plaintext(self@, data)
    }

    fn decrypt(&self, data: &[u8]) -> (r: Result<Vec<u8>, CryptoError>) {
        proof {
            assert(nonce_part(self@) =~= self.nonce@);
            assert(key_part(self@) =~= self.key@);
        }
        let sealed = match decode_url_safe(data) {
            Ok(c) => c,
            Err(_) => return Err(CryptoError::InvalidEncoding),
        };
        proof {
            lemma_b64_decode_encode(sealed@, true, false);
        }
        match open(&self.key, &self.nonce, sealed.as_slice()) {
            Ok(p) => Ok(p),
            Err(_) => Err(CryptoError::AuthenticationFailed),
        }
    }
}

impl KeyGenerate for ChaCha20Poly1305Generator {
    open spec fn is_generated(&self, keys: Seq<(Seq<char>, Seq<u8>)>) -> bool {
        &&& keys.len() == 1
        &&& keys[0].0 == chacha_key_name()
        &&& keys[0].1.len() == MATERIAL_LEN
        &&& seals_and_opens(key_part(keys[0].1), nonce_part(keys[0].1))
    }

    fn generate(&self) -> (r: Result<GeneratedKeys, CryptoError>) {
        let key = fresh_cipher_key();
        let nonce = fresh_nonce();
        let keys = chacha_key_set(&nonce, &key);
        proof {
            let m = nonce@ + key@;
            assert(key_part(m) =~= key@);
            assert(nonce_part(m) =~= nonce@);
            assert(seals_and_opens(key@, nonce@));
        }
        Ok(keys)
    }
}

/// The key set that holds `nonce` followed by `key` as one material.
pub fn chacha_key_set(nonce: &[u8; 12], key: &[u8; 32]) -> (r: GeneratedKeys)
    ensures
        r@ == seq![(chacha_key_name(), nonce@ + key@)],
{
    let mut material = vstd::slice::slice_to_vec(nonce.as_slice());
    let mut i: usize = 0;
    while i < CIPHER_KEY_LEN
        invariant
            i <= CIPHER_KEY_LEN,
            material@ == nonce@ + key@.subrange(0, i as int),
        decreases CIPHER_KEY_LEN - i,
    {
        material.push(key[i]);
        i = i + 1;
        assert(material@ =~= nonce@ + key@.subrange(0, i as int));
    }
    assert(key@.subrange(0, 32) =~= key@);
    let mut entries: Vec<(String, Vec<u8>)> = Vec::new();
    entries.push(("chacha20poly1305.key".to_owned(), material));
    let r = GeneratedKeys::from_entries(entries);
    assert(r@ =~= seq![(chacha_key_name(), nonce@ + key@)]);
    r
}

} // verus!
