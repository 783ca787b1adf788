use rcli::{process_base64_decode, process_base64_encode, Base64Format, CryptoError, OutputFormat};

#[test]
fn test_process_base64_encode() {
    let input = b"hello world!\n";
    let encoded = process_base64_encode(input, Base64Format::Standard).unwrap();
    assert_eq!(encoded, "aGVsbG8gd29ybGQhCg==");
}

#[test]
fn test_process_base64_decode() {
    let input = "aGVsbG8gd29ybGQhCg==\n";
    let decoded = process_base64_decode(input, Base64Format::Standard).unwrap();
    assert_eq!(decoded, "hello world!\n");
}

#[test]
fn base64_url_safe_alphabet_without_padding() {
    let encoded = process_base64_encode(&[0xfb, 0xff], Base64Format::UrlSafe).unwrap();
    assert_eq!(encoded, "-_8");
    let standard = process_base64_encode(&[0xfb, 0xff], Base64Format::Standard).unwrap();
    assert_eq!(standard, "+/8=");
    assert_eq!(process_base64_encode(b"", Base64Format::UrlSafe).unwrap(), "");
}

#[test]
fn base64_decode_trims_and_checks() {
    assert_eq!(process_base64_decode("  aGk  ", Base64Format::UrlSafe).unwrap(), "hi");
    assert_eq!(process_base64_decode("\u{3000}aGk\u{a0}\n", Base64Format::UrlSafe).unwrap(), "hi");
    assert_eq!(process_base64_decode("aGk=", Base64Format::UrlSafe), Err(CryptoError::InvalidEncoding));
    assert_eq!(process_base64_decode("aGk", Base64Format::Standard), Err(CryptoError::InvalidEncoding));
    assert_eq!(process_base64_decode("_w", Base64Format::UrlSafe), Err(CryptoError::InvalidEncoding));
}

#[test]
fn format_names() {
    assert_eq!(Base64Format::from_name("URLSAFE"), Some(Base64Format::UrlSafe));
    assert_eq!(Base64Format::from_name("hex"), None);
    assert_eq!(OutputFormat::from_name("Yaml"), Some(OutputFormat::Yaml));
    assert_eq!(OutputFormat::Toml.as_str(), "toml");
}
