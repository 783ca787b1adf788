use vstd::prelude::*;

verus! {

/// Every way an operation of this library can fail. All of them are
/// terminal: nothing is retried inside the library.
#[derive(Debug, Clone, Copy, PartialEq, Eq, Structural)]
pub enum CryptoError {
    /// The selected algorithm does not offer the requested capability.
    UnsupportedOperation,
    /// The raw key bytes do not have the length the algorithm requires.
    KeyLengthMismatch,
    /// The raw key bytes have the right length but are no key of the
    /// algorithm (an Ed25519 public key that is not a curve point).
    InvalidKey,
    /// A base64 text could not be decoded.
    InvalidEncoding,
    /// A decoded signature does not have the algorithm's fixed size.
    InvalidSignatureLength,
    /// An authentication tag did not match.
    AuthenticationFailed,
    /// Reading an input failed.
    IOFailure,
}

/// The description of an error.
pub open spec fn error_message(e: CryptoError) -> Seq<char> {
    match e {
        CryptoError::UnsupportedOperation => "the algorithm does not support this operation"@,
        CryptoError::KeyLengthMismatch => "the key does not have the length the algorithm requires"@,
        CryptoError::InvalidKey => "the key is not a valid key of the algorithm"@,
        CryptoError::InvalidEncoding => "the input is not valid URL-safe base64"@,
        CryptoError::InvalidSignatureLength => "the signature does not have the required length"@,
        CryptoError::AuthenticationFailed => "authentication failed"@,
        CryptoError::IOFailure => "reading the input failed"@,
    }
}

impl CryptoError {
    /// A short human-readable description of the error.
    pub fn message(&self) -> (r: &'static str)
        ensures
            r@ == error_message(*self),
    {
        match self {
            CryptoError::UnsupportedOperation => "the algorithm does not support this operation",
            CryptoError::KeyLengthMismatch => "the key does not have the length the algorithm requires",
            CryptoError::InvalidKey => "the key is not a valid key of the algorithm",
            CryptoError::InvalidEncoding => "the input is not valid URL-safe base64",
            CryptoError::InvalidSignatureLength => "the signature does not have the required length",
            CryptoError::AuthenticationFailed => "authentication failed",
            CryptoError::IOFailure => "reading the input failed",
        }
    }
}

} // verus!
