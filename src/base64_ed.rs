//! The base64 passthrough: encodes raw bytes, and decodes base64 text back
//! to UTF-8 text, in either flavour.
use crate::encoding::{
    b64_decode, b64_text, decode_standard, decode_url_safe, encodable, encode_standard,
    encode_url_safe, lemma_b64_decode_encode, utf8_string,
};
use crate::error::CryptoError;
use crate::format::Base64Format;
use vstd::prelude::*;
use vstd::utf8::{decode_utf8, encode_utf8, valid_utf8};

verus! {

/// Whether `c` has the Unicode White_Space property, as `char::is_whitespace`
/// tests it.
pub open spec fn is_white_space(c: char) -> bool {
    ||| '\u{9}' <= c <= '\u{d}'
    ||| c == ' '
    ||| c == '\u{85}'
    ||| c == '\u{a0}'
    ||| c == '\u{1680}'
    ||| '\u{2000}' <= c <= '\u{200a}'
    ||| c == '\u{2028}'
    ||| c == '\u{2029}'
    ||| c == '\u{202f}'
    ||| c == '\u{205f}'
    ||| c == '\u{3000}'
}

/// A text without its leading whitespace.
pub open spec fn trim_start(s: Seq<char>) -> Seq<char>
    decreases s.len(),
{
    if s.len() > 0 && is_white_space(s[0]) {
        trim_start(s.drop_first())
    } else {
        s
    }
}

/// A text without its trailing whitespace.
pub open spec fn trim_end(s: Seq<char>) -> Seq<char>
    decreases s.len(),
{
    if s.len() > 0 && is_white_space(s.last()) {
        trim_end(s.drop_last())
    } else {
        s
    }
}

/// A text without its leading and trailing whitespace.
pub open spec fn trimmed(s: Seq<char>) -> Seq<char> {
    trim_end(trim_start(s))
}

/// Relies on `str::trim`: it removes the leading and trailing characters
/// for which `char::is_whitespace` holds.
#[verifier::external_body]
fn trim_text(s: &str) -> (r: &str)
    ensures
        r@ == trimmed(s@),
{
    s.trim()
}

/// Whether the flavour uses the URL-safe alphabet.
pub open spec fn is_url_safe(format: Base64Format) -> bool {
    format == Base64Format::UrlSafe
}

/// Whether the flavour pads with `=`.
pub open spec fn is_padded(format: Base64Format) -> bool {
    format == Base64Format::Standard
}

/// What decoding `text` gives: its trimmed form must be base64 of the
/// flavour, and the bytes it encodes must be UTF-8.
pub open spec fn passthrough_decoded(format: Base64Format, text: Seq<char>) -> Result<
    Seq<char>,
    CryptoError,
> {
    match b64_decode(encode_utf8(trimmed(text)), is_url_safe(format), is_padded(format)) {
        None => Err(CryptoError::InvalidEncoding),
        Some(b) => if valid_utf8(b) {
            Ok(decode_utf8(b))
        } else {
            Err(CryptoError::InvalidEncoding)
        },
    }
}

/// Encodes raw bytes as base64 of the flavour.
pub fn process_base64_encode(data: &[u8], format: Base64Format) -> (r: Result<String, CryptoError>)
    requires
        encodable(data@.len() as int, is_padded(format)),
    ensures
        r matches Ok(s) && s@ == b64_text(data@, is_url_safe(format), is_padded(format)),
{
    match format {
        Base64Format::Standard => Ok(encode_standard(data)),
        Base64Format::UrlSafe => Ok(encode_url_safe(data)),
    }
}

/// Decodes base64 text of the flavour, surrounding whitespace ignored, into
/// the UTF-8 text it encodes.
pub fn process_base64_decode(input: &str, format: Base64Format) -> (r: Result<String, CryptoError>)
    ensures
        match r {
            Ok(s) => passthrough_decoded(format, input@) == Ok::<Seq<char>, CryptoError>(s@),
            Err(e) => passthrough_decoded(format, input@) == Err::<Seq<char>, CryptoError>(e),
        },
{
    let text = trim_text(input);
    let decoded = match format {
        Base64Format::Standard => decode_standard(text.as_bytes()),
        Base64Format::UrlSafe => decode_url_safe(text.as_bytes()),
    };
    let bytes = match decoded {
        Ok(v) => v,
        Err(_) => return Err(CryptoError::InvalidEncoding),
    };
    proof {
        lemma_b64_decode_encode(bytes@, is_url_safe(format), is_padded(format));
    }
    match utf8_string(bytes) {
        Some(s) => Ok(s),
        None => Err(CryptoError::InvalidEncoding),
    }
}

} // verus!
