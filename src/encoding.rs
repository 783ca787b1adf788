//! Base64 text: the model of the encoding, the calls into the `base64`
//! crate, and the facts about the model that the rest of the library uses.
use vstd::prelude::*;
use vstd::utf8::{decode_utf8, encode_utf8, valid_utf8};

verus! {

/// The symbol of a six-bit value. The two alphabets differ only in the
/// last two symbols: `-` and `_` when URL-safe, `+` and `/` otherwise.
pub open spec fn b64_symbol(v: u8, url_safe: bool) -> u8 {
    if v < 26 {
        (65 + v) as u8
    } else if v < 52 {
        (71 + v) as u8
    } else if v < 62 {
        (v - 4) as u8
    } else if v == 62 {
        if url_safe { 45u8 } else { 43u8 }
    } else {
        if url_safe { 95u8 } else { 47u8 }
    }
}

/// The padding symbol `=`.
pub open spec fn b64_pad() -> u8 {
    61u8
}

/// The four symbols of a complete group of three bytes.
pub open spec fn b64_group(a: u8, b: u8, c: u8, url_safe: bool) -> Seq<u8> {
    seq![
        b64_symbol(a >> 2u8, url_safe),
        b64_symbol(((a & 3u8) << 4u8) | (b >> 4u8), url_safe),
        b64_symbol(((b & 15u8) << 2u8) | (c >> 6u8), url_safe),
        b64_symbol(c & 63u8, url_safe),
    ]
}

/// The symbols of a final group of fewer than three bytes.
pub open spec fn b64_tail(d: Seq<u8>, url_safe: bool, pad: bool) -> Seq<u8> {
    if d.len() == 0 {
        seq![]
    } else if d.len() == 1 {
        seq![b64_symbol(d[0] >> 2u8, url_safe), b64_symbol((d[0] & 3u8) << 4u8, url_safe)] + if pad {
            seq![b64_pad(), b64_pad()]
        } else {
            seq![]
        }
    } else {
        seq![
            b64_symbol(d[0] >> 2u8, url_safe),
            b64_symbol(((d[0] & 3u8) << 4u8) | (d[1] >> 4u8), url_safe),
            b64_symbol((d[1] & 15u8) << 2u8, url_safe),
        ] + if pad {
            seq![b64_pad()]
        } else {
            seq![]
        }
    }
}

/// The base64 encoding of `d` as ASCII bytes (RFC 4648), in the chosen
/// alphabet, with or without `=` padding.
pub open spec fn b64_encode(d: Seq<u8>, url_safe: bool, pad: bool) -> Seq<u8>
    decreases d.len(),
{
    if d.len() < 3 {
        b64_tail(d, url_safe, pad)
    } else {
        b64_group(d[0], d[1], d[2], url_safe) + b64_encode(d.skip(3), url_safe, pad)
    }
}

/// The same encoding as text.
pub open spec fn b64_text(d: Seq<u8>, url_safe: bool, pad: bool) -> Seq<char> {
    b64_encode(d, url_safe, pad).map_values(|b: u8| b as char)
}

/// URL-safe base64 without padding: the form of every signature and
/// ciphertext of this library.
pub open spec fn url_safe_text(d: Seq<u8>) -> Seq<char> {
    b64_text(d, true, false)
}

/// Whether `s` is the encoding of some byte sequence.
pub open spec fn is_b64(s: Seq<u8>, url_safe: bool, pad: bool) -> bool {
    exists|d: Seq<u8>| b64_encode(d, url_safe, pad) == s
}

/// What decoding `s` gives: the bytes it encodes, if it encodes any.
pub open spec fn b64_decode(s: Seq<u8>, url_safe: bool, pad: bool) -> Option<Seq<u8>> {
    if is_b64(s, url_safe, pad) {
        Some(choose|d: Seq<u8>| b64_encode(d, url_safe, pad) == s)
    } else {
        None
    }
}

/// The length of the encoding of `n` bytes.
pub open spec fn b64_len(n: int, pad: bool) -> int {
    if n % 3 == 0 {
        n / 3 * 4
    } else if pad {
        n / 3 * 4 + 4
    } else {
        n / 3 * 4 + n % 3 + 1
    }
}

/// Whether the encoding of `n` bytes fits in memory.
pub open spec fn encodable(n: int, pad: bool) -> bool {
    b64_len(n, pad) <= usize::MAX
}

/// The encoding of `n` bytes has `b64_len(n)` symbols.
pub proof fn lemma_b64_len(d: Seq<u8>, url_safe: bool, pad: bool)
    ensures
        b64_encode(d, url_safe, pad).len() == b64_len(d.len() as int, pad),
    decreases d.len(),
{
    if d.len() >= 3 {
        lemma_b64_len(d.skip(3), url_safe, pad);
    }
}

/// Every symbol is ASCII.
pub proof fn lemma_b64_ascii(d: Seq<u8>, url_safe: bool, pad: bool)
    ensures
        forall|i: int|
            0 <= i < b64_encode(d, url_safe, pad).len() ==> #[trigger] b64_encode(
                d,
                url_safe,
                pad,
            )[i] < 128,
    decreases d.len(),
{
    if d.len() >= 3 {
        lemma_b64_ascii(d.skip(3), url_safe, pad);
        let g = b64_group(d[0], d[1], d[2], url_safe);
        let r = b64_encode(d.skip(3), url_safe, pad);
        assert(b64_encode(d, url_safe, pad) == g + r);
        assert forall|i: int| 0 <= i < g.len() + r.len() implies #[trigger] (g + r)[i] < 128 by {
            if i >= g.len() {
                assert((g + r)[i] == r[i - g.len()]);
            }
        }
    }
}

/// The UTF-8 bytes of the encoded text are the encoded bytes.
pub proof fn lemma_b64_text_bytes(d: Seq<u8>, url_safe: bool, pad: bool)
    ensures
        encode_utf8(b64_text(d, url_safe, pad)) == b64_encode(d, url_safe, pad),
        vstd::utf8::is_ascii_chars(b64_text(d, url_safe, pad)),
{
    let e = b64_encode(d, url_safe, pad);
    let t = b64_text(d, url_safe, pad);
    lemma_b64_ascii(d, url_safe, pad);
    assert forall|i: int| 0 <= i < t.len() implies '\0' <= #[trigger] t[i] <= '\u{7f}' by {
        assert(t[i] == e[i] as char);
        assert(e[i] < 128);
    }
    vstd::utf8::is_ascii_chars_encode_utf8(t);
    assert(encode_utf8(t) =~= e);
}

proof fn lemma_symbol_injective(v: u8, w: u8, url_safe: bool)
    requires
        v < 64,
        w < 64,
        b64_symbol(v, url_safe) == b64_symbol(w, url_safe),
    ensures
        v == w,
{
}

proof fn lemma_group_injective(a: u8, b: u8, c: u8, x: u8, y: u8, z: u8, url_safe: bool)
    requires
        b64_group(a, b, c, url_safe) == b64_group(x, y, z, url_safe),
    ensures
        a == x && b == y && c == z,
{
    let g = b64_group(a, b, c, url_safe);
    let h = b64_group(x, y, z, url_safe);
    assert(g[0] == h[0] && g[1] == h[1] && g[2] == h[2] && g[3] == h[3]);
    assert(a >> 2u8 < 64 && x >> 2u8 < 64 && c & 63u8 < 64 && z & 63u8 < 64) by (bit_vector);
    assert((((a & 3u8) << 4u8) | (b >> 4u8)) < 64 && (((x & 3u8) << 4u8) | (y >> 4u8)) < 64)
        by (bit_vector);
    assert((((b & 15u8) << 2u8) | (c >> 6u8)) < 64 && (((y & 15u8) << 2u8) | (z >> 6u8)) < 64)
        by (bit_vector);
    lemma_symbol_injective(a >> 2u8, x >> 2u8, url_safe);
    lemma_symbol_injective(((a & 3u8) << 4u8) | (b >> 4u8), ((x & 3u8) << 4u8) | (y >> 4u8), url_safe);
    lemma_symbol_injective(((b & 15u8) << 2u8) | (c >> 6u8), ((y & 15u8) << 2u8) | (z >> 6u8), url_safe);
    lemma_symbol_injective(c & 63u8, z & 63u8, url_safe);
    assert((a >> 2u8 == x >> 2u8 && ((a & 3u8) << 4u8) | (b >> 4u8) == ((x & 3u8) << 4u8) | (y >> 4u8)
        && ((b & 15u8) << 2u8) | (c >> 6u8) == ((y & 15u8) << 2u8) | (z >> 6u8) && c & 63u8 == z & 63u8)
        ==> (a == x && b == y && c == z)) by (bit_vector);
}

proof fn lemma_tail_injective(d: Seq<u8>, e: Seq<u8>, url_safe: bool, pad: bool)
    requires
        d.len() < 3,
        e.len() < 3,
        b64_tail(d, url_safe, pad) == b64_tail(e, url_safe, pad),
    ensures
        d == e,
{
    let s = b64_tail(d, url_safe, pad);
    if d.len() == 1 {
        let a = d[0];
        assert(a >> 2u8 < 64 && (a & 3u8) << 4u8 < 64 && ((a & 3u8) << 4u8) | 0u8 < 64) by (bit_vector);
        if e.len() == 2 {
            let (x, y) = (e[0], e[1]);
            assert((((x & 3u8) << 4u8) | (y >> 4u8)) < 64 && (y & 15u8) << 2u8 < 64) by (bit_vector);
            assert(s[2] == b64_tail(e, url_safe, pad)[2]);
            assert(false);
        }
        if e.len() == 0 {
            assert(s.len() >= 2);
            assert(false);
        }
        let x = e[0];
        assert(x >> 2u8 < 64 && (x & 3u8) << 4u8 < 64) by (bit_vector);
        assert(s[0] == b64_tail(e, url_safe, pad)[0]);
        assert(s[1] == b64_tail(e, url_safe, pad)[1]);
        lemma_symbol_injective(a >> 2u8, x >> 2u8, url_safe);
        lemma_symbol_injective((a & 3u8) << 4u8, (x & 3u8) << 4u8, url_safe);
        assert((a >> 2u8 == x >> 2u8 && (a & 3u8) << 4u8 == (x & 3u8) << 4u8) ==> a == x)
            by (bit_vector);
        assert(d =~= e);
    } else if d.len() == 2 {
        let (a, b) = (d[0], d[1]);
        assert((((a & 3u8) << 4u8) | (b >> 4u8)) < 64 && (b & 15u8) << 2u8 < 64) by (bit_vector);
        if e.len() == 1 {
            assert(s[2] == b64_tail(e, url_safe, pad)[2]);
            assert(false);
        }
        if e.len() == 0 {
            assert(s.len() >= 3);
            assert(false);
        }
        let (x, y) = (e[0], e[1]);
        assert(a >> 2u8 < 64 && x >> 2u8 < 64 && (y & 15u8) << 2u8 < 64) by (bit_vector);
        assert((((x & 3u8) << 4u8) | (y >> 4u8)) < 64) by (bit_vector);
        assert(s[0] == b64_tail(e, url_safe, pad)[0]);
        assert(s[1] == b64_tail(e, url_safe, pad)[1]);
        assert(s[2] == b64_tail(e, url_safe, pad)[2]);
        lemma_symbol_injective(a >> 2u8, x >> 2u8, url_safe);
        lemma_symbol_injective(((a & 3u8) << 4u8) | (b >> 4u8), ((x & 3u8) << 4u8) | (y >> 4u8), url_safe);
        lemma_symbol_injective((b & 15u8) << 2u8, (y & 15u8) << 2u8, url_safe);
        assert((a >> 2u8 == x >> 2u8 && ((a & 3u8) << 4u8) | (b >> 4u8) == ((x & 3u8) << 4u8) | (y >> 4u8)
            && (b & 15u8) << 2u8 == (y & 15u8) << 2u8) ==> (a == x && b == y)) by (bit_vector);
        assert(d =~= e);
    } else {
        assert(e.len() == 0);
        assert(d =~= e);
    }
}

/// Different byte sequences have different encodings.
pub proof fn lemma_b64_injective(d: Seq<u8>, e: Seq<u8>, url_safe: bool, pad: bool)
    requires
        b64_encode(d, url_safe, pad) == b64_encode(e, url_safe, pad),
    ensures
        d == e,
    decreases d.len(),
{
    lemma_b64_len(d, url_safe, pad);
    lemma_b64_len(e, url_safe, pad);
    if d.len() < 3 && e.len() < 3 {
        lemma_tail_injective(d, e, url_safe, pad);
    } else if d.len() < 3 || e.len() < 3 {
        let (long, short) = if d.len() < 3 { (e, d) } else { (d, e) };
        let g = b64_group(long[0], long[1], long[2], url_safe);
        let t = b64_tail(short, url_safe, pad);
        let x = long[2];
        assert(x & 63u8 < 64) by (bit_vector);
        assert(b64_encode(long, url_safe, pad)[3] == g[3]);
        assert(t.len() == 4);
        assert(t[3] == b64_pad());
        assert(false);
    } else {
        let g = b64_group(d[0], d[1], d[2], url_safe);
        let h = b64_group(e[0], e[1], e[2], url_safe);
        let r = b64_encode(d.skip(3), url_safe, pad);
        let q = b64_encode(e.skip(3), url_safe, pad);
        assert(g + r == h + q);
        assert((g + r).subrange(0, 4) =~= g);
        assert((h + q).subrange(0, 4) =~= h);
        assert((g + r).skip(4) =~= r);
        assert((h + q).skip(4) =~= q);
        lemma_group_injective(d[0], d[1], d[2], e[0], e[1], e[2], url_safe);
        lemma_b64_injective(d.skip(3), e.skip(3), url_safe, pad);
        assert(d =~= seq![d[0], d[1], d[2]] + d.skip(3));
        assert(e =~= seq![e[0], e[1], e[2]] + e.skip(3));
    }
}

/// Decoding an encoding gives back the encoded bytes.
pub proof fn lemma_b64_decode_encode(d: Seq<u8>, url_safe: bool, pad: bool)
    ensures
        b64_decode(b64_encode(d, url_safe, pad), url_safe, pad) == Some(d),
{
    let s = b64_encode(d, url_safe, pad);
    assert(is_b64(s, url_safe, pad));
    let c = choose|x: Seq<u8>| b64_encode(x, url_safe, pad) == s;
    lemma_b64_injective(c, d, url_safe, pad);
}

/// The error that the `base64` crate reports for text it cannot decode.
#[verifier::external_type_specification]
#[verifier::external_body]
pub struct ExDecodeError(base64::DecodeError);

/// Relies on `base64`'s `URL_SAFE_NO_PAD` engine: `encode` writes the
/// URL-safe alphabet without padding.
#[verifier::external_body]
pub(crate) fn encode_url_safe(data: &[u8]) -> (r: String)
    requires
        encodable(data@.len() as int, false),
    ensures
        r@ == b64_text(data@, true, false),
{
    base64::Engine::encode(&base64::engine::general_purpose::URL_SAFE_NO_PAD, data)
}

/// Relies on `base64`'s `STANDARD` engine: `encode` writes the standard
/// alphabet with `=` padding.
#[verifier::external_body]
pub(crate) fn encode_standard(data: &[u8]) -> (r: String)
    requires
        encodable(data@.len() as int, true),
    ensures
        r@ == b64_text(data@, false, true),
{
    base64::Engine::encode(&base64::engine::general_purpose::STANDARD, data)
}

/// Relies on `base64`'s `URL_SAFE_NO_PAD` engine: `decode` accepts exactly
/// the canonical unpadded URL-safe encodings (padding and non-zero trailing
/// bits are refused).
#[verifier::external_body]
pub(crate) fn decode_url_safe(text: &[u8]) -> (r: Result<Vec<u8>, base64::DecodeError>)
    ensures
        match r {
            Ok(v) => b64_encode(v@, true, false) == text@,
            Err(_) => !is_b64(text@, true, false),
        },
{
    base64::Engine::decode(&base64::engine::general_purpose::URL_SAFE_NO_PAD, text)
}

/// Relies on `base64`'s `STANDARD` engine: `decode` accepts exactly the
/// canonical padded encodings in the standard alphabet.
#[verifier::external_body]
pub(crate) fn decode_standard(text: &[u8]) -> (r: Result<Vec<u8>, base64::DecodeError>)
    ensures
        match r {
            Ok(v) => b64_encode(v@, false, true) == text@,
            Err(_) => !is_b64(text@, false, true),
        },
{
    base64::Engine::decode(&base64::engine::general_purpose::STANDARD, text)
}

/// Relies on `String::from_utf8`: it succeeds exactly on valid UTF-8, and
/// the text is what the bytes encode.
#[verifier::external_body]
pub(crate) fn utf8_string(bytes: Vec<u8>) -> (r: Option<String>)
    ensures
        r is Some <==> valid_utf8(bytes@),
        r matches Some(s) ==> s@ == decode_utf8(bytes@),
{
    String::from_utf8(bytes).ok()
}

/// The characters of ASCII bytes, one for one.
pub open spec fn ascii_chars(bytes: Seq<u8>) -> Seq<char> {
    bytes.map_values(|b: u8| b as char)
}

/// ASCII bytes are valid UTF-8 and decode to their own characters.
pub proof fn lemma_ascii_utf8(bytes: Seq<u8>)
    requires
        forall|i: int| 0 <= i < bytes.len() ==> #[trigger] bytes[i] < 128,
    ensures
        valid_utf8(bytes),
        decode_utf8(bytes) == ascii_chars(bytes),
{
    let chars = ascii_chars(bytes);
    assert forall|i: int| 0 <= i < chars.len() implies '\0' <= #[trigger] chars[i] <= '\u{7f}' by {
        assert(chars[i] == bytes[i] as char);
    }
    vstd::utf8::is_ascii_chars_encode_utf8(chars);
    assert forall|i: int| 0 <= i < bytes.len() implies #[trigger] encode_utf8(chars)[i] == bytes[i] by {
        assert(chars[i] == bytes[i] as char);
        let b = bytes[i];
        assert((b as char) as u8 == b);
    }
    assert(encode_utf8(chars) =~= bytes);
    vstd::utf8::encode_utf8_valid_utf8(chars);
    vstd::utf8::encode_utf8_decode_utf8(chars);
}

} // verus!
