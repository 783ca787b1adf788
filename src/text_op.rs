//! The text operation facade: builds the capability from the key bytes the
//! caller loaded, runs it once over the whole input, and hands back the
//! encoded result (raw bytes for decryption).
use crate::capability::{bytes_result, KeyGenerate, TextDecrypt, TextEncrypt, TextSign, TextVerify};
use crate::chacha::{can_seal, chacha_ciphertext, chacha_plaintext};
use crate::error::CryptoError;
use crate::factory::{
    cipher_key_len, construction, create_decryptor, create_encryptor, create_generator,
    create_signer, create_verifier, generated_for, signature_bytes, signature_len, signature_text,
    signature_verdict, signing_key_len, verifier_construction, verifying_key_of,
};
use crate::chacha::{chacha_sealed_of, key_part, nonce_part};
use crate::encoding::{b64_decode, b64_len};
use crate::format::CryptFormat;
use crate::keys::GeneratedKeys;
use vstd::prelude::*;
use vstd::utf8::encode_utf8;

verus! {

/// What signing `data` with `key` gives: the signature text, or why no
/// signer could be built.
pub open spec fn text_signed(format: CryptFormat, key: Seq<u8>, data: Seq<u8>) -> Result<
    Seq<char>,
    CryptoError,
> {
    match construction(signing_key_len(format), key) {
        Err(e) => Err(e),
        Ok(_) => Ok(signature_text(format, key, data)),
    }
}

/// What verifying `signature` over `data` with `key` gives.
pub open spec fn text_verified(
    format: CryptFormat,
    key: Seq<u8>,
    data: Seq<u8>,
    signature: Seq<char>,
) -> Result<bool, CryptoError> {
    match verifier_construction(format, key) {
        Err(e) => Err(e),
        Ok(_) => signature_verdict(format, key, data, signature),
    }
}

/// What encrypting `data` with `key` gives: the ciphertext text, or why no
/// encryptor could be built.
pub open spec fn text_encrypted(format: CryptFormat, key: Seq<u8>, data: Seq<u8>) -> Result<
    Seq<char>,
    CryptoError,
> {
    match construction(cipher_key_len(format), key) {
        Err(e) => Err(e),
        Ok(_) => Ok(chacha_ciphertext(key, data)),
    }
}

/// What decrypting the ciphertext text `data` with `key` gives.
pub open spec fn text_decrypted(format: CryptFormat, key: Seq<u8>, data: Seq<u8>) -> Result<
    Seq<u8>,
    CryptoError,
> {
    match construction(cipher_key_len(format), key) {
        Err(e) => Err(e),
        Ok(_) => chacha_plaintext(key, data),
    }
}

/// The text of a successful result, or its error.
pub open spec fn text_result(r: Result<String, CryptoError>) -> Result<Seq<char>, CryptoError> {
    match r {
        Ok(s) => Ok(s@),
        Err(e) => Err(e),
    }
}

/// Signs the whole input with the loaded key. A signature it returns is
/// accepted by verification with the matching verifying key.
pub fn process_text_sign(data: &[u8], key: Vec<u8>, format: CryptFormat) -> (r: Result<
    String,
    CryptoError,
>)
    ensures
        text_result(r) == text_signed(format, key@, data@),
        r matches Ok(s) ==> signature_verdict(format, verifying_key_of(format, key@), data@, s@)
            == Ok::<bool, CryptoError>(true),
        r matches Ok(s) ==> b64_decode(encode_utf8(s@), true, false) == Some(
            signature_bytes(format, key@, data@),
        ) && signature_bytes(format, key@, data@).len() == signature_len(format) && s@.len()
            == b64_len(signature_len(format) as int, false),
{
    let signer = create_signer(format, key)?;
    signer.sign(data)
}

/// Verifies a signature text over the whole input with the loaded key.
pub fn process_text_verify(data: &[u8], key: Vec<u8>, signature: &str, format: CryptFormat) -> (r:
    Result<bool, CryptoError>)
    ensures
        r == text_verified(format, key@, data@, signature@),
{
    let verifier = create_verifier(format, key)?;
    verifier.verify(data, signature)
}

/// Generates fresh keys for the algorithm, for the caller to persist.
pub fn process_text_generate(format: CryptFormat) -> (r: Result<GeneratedKeys, CryptoError>)
    ensures
        r matches Ok(k) && k.wf() && generated_for(format, k@),
{
    let generator = create_generator(format)?;
    generator.generate()
}

/// Encrypts the whole input with the loaded key material. Decrypting the
/// ciphertext it returns with the same material gives the input back.
pub fn process_text_encrypt(data: &[u8], key: Vec<u8>, format: CryptFormat) -> (r: Result<
    String,
    CryptoError,
>)
    requires
        can_seal(data@.len()),
    ensures
        text_result(r) == text_encrypted(format, key@, data@),
        r matches Ok(s) ==> text_decrypted(format, key@, encode_utf8(s@)) == Ok::<
            Seq<u8>,
            CryptoError,
        >(data@),
        r matches Ok(s) ==> b64_decode(encode_utf8(s@), true, false) == Some(
            chacha_sealed_of(key_part(key@), nonce_part(key@), data@),
        ) && chacha_sealed_of(key_part(key@), nonce_part(key@), data@).len() == data@.len() + 16,
{
    let encryptor = create_encryptor(format, key)?;
    encryptor.encrypt(data)
}

/// Decrypts a ciphertext text with the loaded key material into the raw
/// plaintext bytes.
pub fn process_text_decrypt(data: &[u8], key: Vec<u8>, format: CryptFormat) -> (r: Result<
    Vec<u8>,
    CryptoError,
>)
    ensures
        bytes_result(r) == text_decrypted(format, key@, data@),
{
    let decryptor = create_decryptor(format, key)?;
    decryptor.decrypt(data)
}

} // verus!
