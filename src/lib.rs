//! Text-oriented cryptographic operations over a closed set of algorithms:
//! a keyed BLAKE3 MAC, Ed25519 signatures and ChaCha20-Poly1305 encryption.
//! Every signature and ciphertext crosses the boundary as URL-safe base64
//! without padding.

pub mod base64_ed;
pub mod blake;
pub mod capability;
pub mod chacha;
pub mod ed25519;
pub mod encoding;
pub mod error;
pub mod factory;
pub mod format;
pub mod keys;
pub mod laws;
pub mod password;
pub mod text_op;

pub use base64_ed::{process_base64_decode, process_base64_encode};
pub use blake::{BlakeGenerate, BlakeSign, BlakeVerify};
pub use capability::{KeyGenerate, TextDecrypt, TextEncrypt, TextSign, TextVerify};
pub use chacha::{ChaCha20Poly1305EnDe, ChaCha20Poly1305Generator};
pub use ed25519::{Ed25519Gen, Ed25519Signer, Ed25519Verifier};
pub use error::CryptoError;
pub use factory::{
    create_decryptor, create_encryptor, create_generator, create_signer, create_verifier,
    KeyGenerator, TextSigner, TextVerifier,
};
pub use format::{Base64Format, CryptFormat, OutputFormat};
pub use keys::GeneratedKeys;
pub use password::process_gen_pass;
pub use text_op::{
    process_text_decrypt, process_text_encrypt, process_text_generate, process_text_sign,
    process_text_verify,
};
