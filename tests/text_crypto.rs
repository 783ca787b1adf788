use rcli::{
    create_decryptor, create_encryptor, create_generator, create_signer, create_verifier,
    process_text_decrypt, process_text_encrypt, process_text_generate, process_text_sign,
    process_text_verify, BlakeGenerate, BlakeSign, BlakeVerify, ChaCha20Poly1305EnDe,
    ChaCha20Poly1305Generator, CryptFormat, CryptoError, Ed25519Gen, Ed25519Signer,
    Ed25519Verifier, KeyGenerate, TextDecrypt, TextEncrypt, TextSign, TextVerify,
};

const BLAKE_TEST_KEY: &[u8] = b"kP3#xZ9@qL7!mW2$vB8^nT4&hR6*yD1(";

#[test]
fn test_blake_sign_and_verify() {
    let signer = BlakeSign::try_new(BLAKE_TEST_KEY).expect("Failed to load key");
    let verifier = BlakeVerify::try_new(BLAKE_TEST_KEY).expect("Failed to load key");
    let data = b"hello world";
    let signature = signer.sign(data).unwrap();
    let verified = verifier.verify(data, &signature).unwrap();
    assert!(verified);
}

#[test]
fn test_blake_generate() {
    let generator = BlakeGenerate {};
    let keys = generator.generate().unwrap();
    assert_eq!(keys.len(), 1);
    let key = keys.get("blake3.key").unwrap();
    println!("{:?}", String::from_utf8(key.to_vec()).unwrap());
    assert_eq!(key.len(), 32);
}

#[test]
fn test_chacha20poly1305_generate() {
    let generator = ChaCha20Poly1305Generator::new();
    let keys = generator.generate().unwrap();
    assert_eq!(keys.len(), 1);
    assert!(keys.contains_key("chacha20poly1305.key"));
    let (nonce, key) =
        ChaCha20Poly1305Generator::nonce_key(keys.get("chacha20poly1305.key").unwrap()).unwrap();
    println!("{:?}", nonce);
    println!("{:?}", key);
}

#[test]
fn test_chacha20poly1305_new() {
    let generator = ChaCha20Poly1305Generator::new();
    let keys = generator.generate().unwrap();
    ChaCha20Poly1305Generator::nonce_key(keys.get("chacha20poly1305.key").unwrap()).unwrap();
    ChaCha20Poly1305EnDe::try_new(keys.get("chacha20poly1305.key").unwrap()).unwrap();
}

#[test]
fn test_chacha20poly1305_encrypt_decrypt() {
    let generator = ChaCha20Poly1305Generator::new();
    let keys = generator.generate().unwrap();
    let en_de = ChaCha20Poly1305EnDe::try_new(keys.get("chacha20poly1305.key").unwrap()).unwrap();

    let data = b"hello world!";
    let cipher_text = en_de.encrypt(data).unwrap();
    let plain_text = en_de.decrypt(cipher_text.as_bytes()).unwrap();

    println!("{:?}", String::from_utf8(plain_text.clone()).unwrap());
    assert_eq!(plain_text, "hello world!".as_bytes());
}

#[test]
fn test_ed25519_sign_verify() {
    let gen = Ed25519Gen::new();
    let pks = gen.generate().unwrap();
    let pk = pks.get("ed25519.pk").unwrap().to_vec();
    let pk: [u8; 32] = pk.try_into().unwrap();
    let sk = pks.get("ed25519.sk").unwrap().to_vec();
    let sk: [u8; 32] = sk.try_into().unwrap();

    let signer = Ed25519Signer::new(sk);
    let verifier = Ed25519Verifier::new(pk);
    let data = b"hello world";

    let signature = signer.sign(data).unwrap();
    let result = verifier.verify(data, &signature).unwrap();
    assert!(result);
}

fn generated_key(format: CryptFormat, name: &str) -> Vec<u8> {
    let keys = process_text_generate(format).unwrap();
    keys.get(name).unwrap().clone()
}

#[test]
fn blake_scenario_sign_then_verify_and_tamper() {
    let key = generated_key(CryptFormat::Blake, "blake3.key");
    let signature = process_text_sign(b"hello world", key.clone(), CryptFormat::Blake).unwrap();
    assert!(process_text_verify(b"hello world", key.clone(), &signature, CryptFormat::Blake).unwrap());
    assert!(!process_text_verify(b"hello worle", key, &signature, CryptFormat::Blake).unwrap());
}

#[test]
fn blake_round_trip_on_empty_input() {
    let key = generated_key(CryptFormat::Blake, "blake3.key");
    let signature = process_text_sign(b"", key.clone(), CryptFormat::Blake).unwrap();
    assert!(process_text_verify(b"", key, &signature, CryptFormat::Blake).unwrap());
}

#[test]
fn blake_signature_is_43_url_safe_characters() {
    let signature = process_text_sign(b"hello world", BLAKE_TEST_KEY.to_vec(), CryptFormat::Blake).unwrap();
    assert_eq!(signature.len(), 43);
    assert!(signature.bytes().all(|c| c.is_ascii_alphanumeric() || c == b'-' || c == b'_'));
    let again = process_text_sign(b"hello world", BLAKE_TEST_KEY.to_vec(), CryptFormat::Blake).unwrap();
    assert_eq!(signature, again);
    let other = process_text_sign(b"hello worle", BLAKE_TEST_KEY.to_vec(), CryptFormat::Blake).unwrap();
    assert_ne!(signature, other);
}

#[test]
fn blake_altered_signature_is_false() {
    let signature = process_text_sign(b"data", BLAKE_TEST_KEY.to_vec(), CryptFormat::Blake).unwrap();
    let mut altered = signature.into_bytes();
    altered[5] = if altered[5] == b'A' { b'B' } else { b'A' };
    let altered = String::from_utf8(altered).unwrap();
    assert!(!process_text_verify(b"data", BLAKE_TEST_KEY.to_vec(), &altered, CryptFormat::Blake).unwrap());
}

#[test]
fn ed25519_scenario_empty_input_and_foreign_key() {
    let keys = process_text_generate(CryptFormat::Ed25519).unwrap();
    let sk = keys.get("ed25519.sk").unwrap().clone();
    let pk = keys.get("ed25519.pk").unwrap().clone();
    let other = generated_key(CryptFormat::Ed25519, "ed25519.pk");
    let signature = process_text_sign(b"", sk, CryptFormat::Ed25519).unwrap();
    assert_eq!(signature.len(), 86);
    assert!(process_text_verify(b"", pk, &signature, CryptFormat::Ed25519).unwrap());
    assert!(!process_text_verify(b"", other, &signature, CryptFormat::Ed25519).unwrap());
}

#[test]
fn ed25519_altered_data_or_signature_is_false() {
    let keys = process_text_generate(CryptFormat::Ed25519).unwrap();
    let sk = keys.get("ed25519.sk").unwrap().clone();
    let pk = keys.get("ed25519.pk").unwrap().clone();
    let signature = process_text_sign(b"hello world", sk, CryptFormat::Ed25519).unwrap();
    assert!(!process_text_verify(b"hello worle", pk.clone(), &signature, CryptFormat::Ed25519).unwrap());
    let mut altered = signature.into_bytes();
    altered[0] = if altered[0] == b'A' { b'B' } else { b'A' };
    let altered = String::from_utf8(altered).unwrap();
    assert!(!process_text_verify(b"hello world", pk, &altered, CryptFormat::Ed25519).unwrap());
}

#[test]
fn ed25519_signature_errors() {
    let pk = generated_key(CryptFormat::Ed25519, "ed25519.pk");
    let bad = process_text_verify(b"x", pk.clone(), "not base64!", CryptFormat::Ed25519);
    assert_eq!(bad, Err(CryptoError::InvalidEncoding));
    let padded = process_text_verify(b"x", pk.clone(), "aGVsbG8=", CryptFormat::Ed25519);
    assert_eq!(padded, Err(CryptoError::InvalidEncoding));
    let short = process_text_verify(b"x", pk, "aGVsbG8", CryptFormat::Ed25519);
    assert_eq!(short, Err(CryptoError::InvalidSignatureLength));
}

#[test]
fn chacha_scenario_round_trip_and_tamper() {
    let key = generated_key(CryptFormat::ChaCha20Poly1305, "chacha20poly1305.key");
    assert_eq!(key.len(), 44);
    let cipher = process_text_encrypt(b"hello world!", key.clone(), CryptFormat::ChaCha20Poly1305).unwrap();
    assert_eq!(cipher.len(), 38);
    let plain = process_text_decrypt(cipher.as_bytes(), key.clone(), CryptFormat::ChaCha20Poly1305).unwrap();
    assert_eq!(plain, b"hello world!".to_vec());
    let mut altered = cipher.into_bytes();
    altered[0] = if altered[0] == b'A' { b'B' } else { b'A' };
    let result = process_text_decrypt(&altered, key, CryptFormat::ChaCha20Poly1305);
    assert_eq!(result, Err(CryptoError::AuthenticationFailed));
}

#[test]
fn chacha_round_trip_on_empty_input() {
    let key = generated_key(CryptFormat::ChaCha20Poly1305, "chacha20poly1305.key");
    let cipher = process_text_encrypt(b"", key.clone(), CryptFormat::ChaCha20Poly1305).unwrap();
    assert_eq!(cipher.len(), 22);
    let plain = process_text_decrypt(cipher.as_bytes(), key, CryptFormat::ChaCha20Poly1305).unwrap();
    assert!(plain.is_empty());
}

#[test]
fn chacha_decrypt_rejects_bad_encoding() {
    let key = generated_key(CryptFormat::ChaCha20Poly1305, "chacha20poly1305.key");
    let result = process_text_decrypt(b"@@@@", key, CryptFormat::ChaCha20Poly1305);
    assert_eq!(result, Err(CryptoError::InvalidEncoding));
}

#[test]
fn key_length_is_enforced() {
    assert_eq!(create_signer(CryptFormat::Blake, vec![7u8; 31]).err(), Some(CryptoError::KeyLengthMismatch));
    assert_eq!(create_signer(CryptFormat::Ed25519, vec![7u8; 33]).err(), Some(CryptoError::KeyLengthMismatch));
    assert_eq!(create_verifier(CryptFormat::Blake, vec![]).err(), Some(CryptoError::KeyLengthMismatch));
    assert_eq!(create_verifier(CryptFormat::Ed25519, vec![7u8; 64]).err(), Some(CryptoError::KeyLengthMismatch));
    assert_eq!(create_encryptor(CryptFormat::ChaCha20Poly1305, vec![7u8; 43]).err(), Some(CryptoError::KeyLengthMismatch));
    assert_eq!(create_decryptor(CryptFormat::ChaCha20Poly1305, vec![7u8; 45]).err(), Some(CryptoError::KeyLengthMismatch));
    assert_eq!(create_decryptor(CryptFormat::ChaCha20Poly1305, vec![7u8; 10]).err(), Some(CryptoError::KeyLengthMismatch));
    assert!(create_signer(CryptFormat::Blake, vec![7u8; 32]).is_ok());
    assert!(create_encryptor(CryptFormat::ChaCha20Poly1305, vec![7u8; 44]).is_ok());
}

#[test]
fn unsupported_capabilities_are_refused() {
    assert_eq!(create_signer(CryptFormat::ChaCha20Poly1305, vec![7u8; 44]).err(), Some(CryptoError::UnsupportedOperation));
    assert_eq!(create_verifier(CryptFormat::ChaCha20Poly1305, vec![7u8; 32]).err(), Some(CryptoError::UnsupportedOperation));
    assert_eq!(create_encryptor(CryptFormat::Blake, vec![7u8; 44]).err(), Some(CryptoError::UnsupportedOperation));
    assert_eq!(create_decryptor(CryptFormat::Ed25519, vec![7u8; 32]).err(), Some(CryptoError::UnsupportedOperation));
    assert!(create_generator(CryptFormat::ChaCha20Poly1305).is_ok());
}

#[test]
fn keys_of_one_algorithm_are_refused_by_another() {
    let chacha = generated_key(CryptFormat::ChaCha20Poly1305, "chacha20poly1305.key");
    assert_eq!(create_signer(CryptFormat::Blake, chacha.clone()).err(), Some(CryptoError::KeyLengthMismatch));
    assert_eq!(create_verifier(CryptFormat::Ed25519, chacha).err(), Some(CryptoError::KeyLengthMismatch));
    let blake = generated_key(CryptFormat::Blake, "blake3.key");
    assert_eq!(create_encryptor(CryptFormat::ChaCha20Poly1305, blake).err(), Some(CryptoError::KeyLengthMismatch));
    let sk = generated_key(CryptFormat::Ed25519, "ed25519.sk");
    assert_eq!(create_decryptor(CryptFormat::ChaCha20Poly1305, sk).err(), Some(CryptoError::KeyLengthMismatch));
}

#[test]
fn generated_key_sets_have_their_names() {
    let ed = process_text_generate(CryptFormat::Ed25519).unwrap();
    assert_eq!(ed.len(), 2);
    assert!(ed.contains_key("ed25519.pk"));
    assert!(ed.contains_key("ed25519.sk"));
    assert!(!ed.contains_key("blake3.key"));
    assert!(ed.get("missing").is_none());
    let entries = ed.into_entries();
    assert_eq!(entries[0].0, "ed25519.pk");
    assert_eq!(entries[1].0, "ed25519.sk");
    let blake = process_text_generate(CryptFormat::Blake).unwrap();
    let key = blake.get("blake3.key").unwrap();
    assert!(key.iter().all(|c| c.is_ascii_graphic()));
}

#[test]
fn crypt_format_names() {
    assert_eq!(CryptFormat::from_name("BLAKE"), Some(CryptFormat::Blake));
    assert_eq!(CryptFormat::from_name("Ed25519"), Some(CryptFormat::Ed25519));
    assert_eq!(CryptFormat::from_name("chacha20poly1305"), Some(CryptFormat::ChaCha20Poly1305));
    assert_eq!(CryptFormat::from_name("rsa"), None);
    assert_eq!(CryptFormat::Blake.as_str(), "blake");
}

#[test]
fn ed25519_verifier_refuses_bytes_that_are_no_public_key() {
    let mut refused = 0;
    for y in 0u8..=255 {
        let mut key = vec![0u8; 32];
        key[0] = y;
        match create_verifier(CryptFormat::Ed25519, key) {
            Ok(_) => {}
            Err(e) => {
                assert_eq!(e, CryptoError::InvalidKey);
                refused += 1;
            }
        }
    }
    assert!(refused > 0);
    assert_eq!(Ed25519Verifier::try_new(&[1u8; 31]).err(), Some(CryptoError::KeyLengthMismatch));
    let pk = generated_key(CryptFormat::Ed25519, "ed25519.pk");
    assert!(Ed25519Verifier::try_new(&pk).is_ok());
}

#[test]
fn error_messages_are_distinct() {
    assert_ne!(CryptoError::InvalidKey.message(), CryptoError::KeyLengthMismatch.message());
    assert_eq!(CryptoError::AuthenticationFailed.message(), "authentication failed");
}
