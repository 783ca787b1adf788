//! One interface per capability: sign, verify, generate keys, encrypt and
//! decrypt. Each algorithm implements the ones it offers.
use crate::error::CryptoError;
use crate::keys::GeneratedKeys;
use vstd::prelude::*;

verus! {

/// The bytes of a successful result, or its error.
pub open spec fn bytes_result(r: Result<Vec<u8>, CryptoError>) -> Result<Seq<u8>, CryptoError> {
    match r {
        Ok(v) => Ok(v@),
        Err(e) => Err(e),
    }
}

/// Produces a signature text over a whole input.
pub trait TextSign {
    /// The signature text for `data`.
    spec fn signature_of(&self, data: Seq<u8>) -> Seq<char>;

    fn sign(&self, data: &[u8]) -> (r: Result<String, CryptoError>)
        ensures
            r matches Ok(s) && s@ == self.signature_of(data@),
    ;
}

/// Checks a signature text against a whole input.
pub trait TextVerify {
    /// Whether `signature` matches `data`, or why the signature is malformed.
    spec fn verdict(&self, data: Seq<u8>, signature: Seq<char>) -> Result<bool, CryptoError>;

    fn verify(&self, data: &[u8], signature: &str) -> (r: Result<bool, CryptoError>)
        ensures
            r == self.verdict(data@, signature@),
    ;
}

/// Produces fresh key material under canonical names.
pub trait KeyGenerate {
    /// Whether `keys` is a possible outcome of one generate call.
    spec fn is_generated(&self, keys: Seq<(Seq<char>, Seq<u8>)>) -> bool;

    fn generate(&self) -> (r: Result<GeneratedKeys, CryptoError>)
        ensures
            r matches Ok(k) && k.wf() && self.is_generated(k@),
    ;
}

/// Encrypts a whole input into a ciphertext text.
pub trait TextEncrypt {
    /// Whether an input of `n` bytes can be encrypted at all.
    spec fn can_encrypt(&self, n: nat) -> bool;

    /// The ciphertext text for `data`.
    spec fn ciphertext_of(&self, data: Seq<u8>) -> Seq<char>;

    fn encrypt(&self, data: &[u8]) -> (r: Result<String, CryptoError>)
        requires
            self.can_encrypt(data@.len()),
        ensures
            r matches Ok(s) && s@ == self.ciphertext_of(data@),
    ;
}

/// Decrypts a ciphertext text back into the raw plaintext bytes.
pub trait TextDecrypt {
    /// The plaintext that `data` opens to, or why it does not open.
    spec fn plaintext_of(&self, data: Seq<u8>) -> Result<Seq<u8>, CryptoError>;

    fn decrypt(&self, data: &[u8]) -> (r: Result<Vec<u8>, CryptoError>)
        ensures
            bytes_result(r) == self.plaintext_of(data@),
    ;
}

} // verus!
