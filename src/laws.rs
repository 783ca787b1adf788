//! Laws that relate the operations of the facade to one another.
use crate::chacha::{
    can_seal, chacha_ciphertext, chacha_sealed_of, key_part, nonce_part, MATERIAL_LEN,
};
use crate::ed25519::{ed25519_accepts, ed25519_signature_of};
use crate::encoding::{lemma_b64_decode_encode, lemma_b64_text_bytes};
use vstd::utf8::encode_utf8;
use crate::error::CryptoError;
use crate::factory::{cipher_key_len, generated_for, signature_text, signing_key_len};
use crate::format::CryptFormat;
use crate::text_op::{text_decrypted, text_encrypted, text_signed, text_verified};
use vstd::prelude::*;

verus! {

/// BlakeMAC round trip: for every 32-byte key and every input, the empty
/// one included, the signature that signing produces verifies under the
/// same key.
pub proof fn lemma_blake_round_trip(key: Seq<u8>, data: Seq<u8>)
    requires
        key.len() == 32,
    ensures
        text_signed(CryptFormat::Blake, key, data) == Ok::<Seq<char>, CryptoError>(
            signature_text(CryptFormat::Blake, key, data),
        ),
        text_verified(CryptFormat::Blake, key, data, signature_text(CryptFormat::Blake, key, data))
            == Ok::<bool, CryptoError>(true),
{
}

/// The signing key in a key set generated for a signing algorithm.
pub open spec fn signing_key_in(format: CryptFormat, keys: Seq<(Seq<char>, Seq<u8>)>) -> Seq<u8> {
    match format {
        CryptFormat::Ed25519 => keys[1].1,
        _ => keys[0].1,
    }
}

/// The verifying key in a key set generated for a signing algorithm.
pub open spec fn verifying_key_in(format: CryptFormat, keys: Seq<(Seq<char>, Seq<u8>)>) -> Seq<u8> {
    keys[0].1
}

/// Round trip over a generated key set, for both signing algorithms: for
/// every input, the empty one included, signing with the set's signing key
/// succeeds, and its signature verifies as true with the set's verifying
/// key.
pub proof fn lemma_sign_verify_round_trip(
    format: CryptFormat,
    keys: Seq<(Seq<char>, Seq<u8>)>,
    data: Seq<u8>,
)
    requires
        format != CryptFormat::ChaCha20Poly1305,
        generated_for(format, keys),
    ensures
        text_signed(format, signing_key_in(format, keys), data) == Ok::<Seq<char>, CryptoError>(
            signature_text(format, signing_key_in(format, keys), data),
        ),
        text_verified(
            format,
            verifying_key_in(format, keys),
            data,
            signature_text(format, signing_key_in(format, keys), data),
        ) == Ok::<bool, CryptoError>(true),
{
    if format == CryptFormat::Ed25519 {
        let sig = ed25519_signature_of(keys[1].1, data);
        assert(sig.len() == 64 && ed25519_accepts(keys[0].1, data, sig));
        lemma_b64_text_bytes(sig, true, false);
        lemma_b64_decode_encode(sig, true, false);
    }
}

/// Encrypt/decrypt round trip under a generated ChaCha20-Poly1305 key: for
/// every input the cipher accepts, the empty one included, the ciphertext
/// decodes to the sealed bytes, which are 16 bytes longer than the input,
/// and decrypting it gives the input back.
pub proof fn lemma_encrypt_decrypt_round_trip(keys: Seq<(Seq<char>, Seq<u8>)>, data: Seq<u8>)
    requires
        generated_for(CryptFormat::ChaCha20Poly1305, keys),
        can_seal(data.len()),
    ensures
        text_encrypted(CryptFormat::ChaCha20Poly1305, keys[0].1, data) == Ok::<
            Seq<char>,
            CryptoError,
        >(chacha_ciphertext(keys[0].1, data)),
        chacha_sealed_of(key_part(keys[0].1), nonce_part(keys[0].1), data).len() == data.len() + 16,
        text_decrypted(
            CryptFormat::ChaCha20Poly1305,
            keys[0].1,
            encode_utf8(chacha_ciphertext(keys[0].1, data)),
        ) == Ok::<Seq<u8>, CryptoError>(data),
{
    let m = keys[0].1;
    let c = chacha_sealed_of(key_part(m), nonce_part(m), data);
    assert(c.len() == data.len() + 16);
    lemma_b64_text_bytes(c, true, false);
    lemma_b64_decode_encode(c, true, false);
}

/// BlakeMAC signatures are compared as whole texts: any text other than the
/// signature of the data under the key, such as one with a single character
/// altered, verifies as false.
pub proof fn lemma_blake_altered_signature(key: Seq<u8>, data: Seq<u8>, signature: Seq<char>)
    requires
        key.len() == 32,
        signature != signature_text(CryptFormat::Blake, key, data),
    ensures
        text_verified(CryptFormat::Blake, key, data, signature) == Ok::<bool, CryptoError>(false),
{
}

/// Key-length enforcement: a capability that the algorithm offers is built
/// only from key bytes of exactly the required length (32 for the BlakeMAC
/// key and each Ed25519 half, 44 for ChaCha20-Poly1305 material); any other
/// length fails with `KeyLengthMismatch`.
pub proof fn lemma_key_length_enforced(format: CryptFormat, key: Seq<u8>, data: Seq<u8>, signature: Seq<char>)
    ensures
        format != CryptFormat::ChaCha20Poly1305 && key.len() != 32 ==> text_signed(format, key, data)
            == Err::<Seq<char>, CryptoError>(CryptoError::KeyLengthMismatch) && text_verified(
            format,
            key,
            data,
            signature,
        ) == Err::<bool, CryptoError>(CryptoError::KeyLengthMismatch),
        format == CryptFormat::ChaCha20Poly1305 && key.len() != MATERIAL_LEN ==> text_encrypted(
            format,
            key,
            data,
        ) == Err::<Seq<char>, CryptoError>(CryptoError::KeyLengthMismatch) && text_decrypted(
            format,
            key,
            data,
        ) == Err::<Seq<u8>, CryptoError>(CryptoError::KeyLengthMismatch),
{
}

/// Cross-algorithm isolation: key bytes generated for one algorithm are
/// refused by the length requirement of a capability of another algorithm.
/// Between BlakeMAC and Ed25519 both keys are 32 bytes long, so no length
/// tells them apart; an Ed25519 verifier still refuses bytes that are not a
/// curve point, but a BlakeMAC key may happen to be one.
pub proof fn lemma_cross_algorithm_isolation(
    made_for: CryptFormat,
    keys: Seq<(Seq<char>, Seq<u8>)>,
    i: int,
    used_for: CryptFormat,
    data: Seq<u8>,
    signature: Seq<char>,
)
    requires
        generated_for(made_for, keys),
        0 <= i < keys.len(),
        made_for != used_for,
        made_for == CryptFormat::ChaCha20Poly1305 || used_for == CryptFormat::ChaCha20Poly1305,
    ensures
        signing_key_len(used_for) is Some ==> text_signed(used_for, keys[i].1, data) == Err::<
            Seq<char>,
            CryptoError,
        >(CryptoError::KeyLengthMismatch) && text_verified(used_for, keys[i].1, data, signature)
            == Err::<bool, CryptoError>(CryptoError::KeyLengthMismatch),
        cipher_key_len(used_for) is Some ==> text_encrypted(used_for, keys[i].1, data) == Err::<
            Seq<char>,
            CryptoError,
        >(CryptoError::KeyLengthMismatch) && text_decrypted(used_for, keys[i].1, data) == Err::<
            Seq<u8>,
            CryptoError,
        >(CryptoError::KeyLengthMismatch),
{
    if made_for == CryptFormat::Blake {
        assert(i == 0);
    }
}

} // verus!
