//! Random passwords over a chosen character set; also the source of
//! BlakeMAC key material.
use crate::encoding::{ascii_chars, lemma_ascii_utf8, utf8_string};
use crate::error::CryptoError;
use vstd::prelude::*;

verus! {

/// The bytes from `lo` up to and excluding `hi`.
pub open spec fn byte_range(lo: u8, hi: u8) -> Seq<u8> {
    Seq::new((hi - lo) as nat, |i: int| (lo + i) as u8)
}

/// The punctuation that the symbol class adds: `!@#$%^&*()-_=+`.
pub open spec fn symbol_bytes() -> Seq<u8> {
    seq![33u8, 64, 35, 36, 37, 94, 38, 42, 40, 41, 45, 95, 61, 43]
}

/// The character set for the chosen classes, in the order upper-case
/// letters, lower-case letters, digits, symbols.
pub open spec fn charset(uppercase: bool, lowercase: bool, number: bool, symbol: bool) -> Seq<u8> {
    (if uppercase { byte_range(65, 91) } else { seq![] }) + (if lowercase {
        byte_range(97, 123)
    } else {
        seq![]
    }) + (if number { byte_range(48, 58) } else { seq![] }) + (if symbol {
        symbol_bytes()
    } else {
        seq![]
    })
}

/// Every byte of `p` is in `set`.
pub open spec fn drawn_from(p: Seq<u8>, set: Seq<u8>) -> bool {
    forall|i: int| 0 <= i < p.len() ==> set.contains(#[trigger] p[i])
}

/// Relies on `rand::seq::SliceRandom::choose` with the thread-local
/// generator: `None` only for an empty slice, otherwise one of its elements.
#[verifier::external_body]
fn pick_byte(set: &[u8]) -> (r: Option<u8>)
    ensures
        r is Some <==> set@.len() > 0,
        r matches Some(b) ==> set@.contains(b),
{
    rand::seq::SliceRandom::choose(set, &mut rand::thread_rng()).copied()
}

fn push_range(v: &mut Vec<u8>, lo: u8, hi: u8)
    requires
        lo <= hi,
    ensures
        final(v)@ == old(v)@ + byte_range(lo, hi),
{
    let ghost start = v@;
    let mut c: u8 = lo;
    while c < hi
        invariant
            lo <= c <= hi,
            v@ == start + byte_range(lo, c),
        decreases hi - c,
    {
        v.push(c);
        c = c + 1;
        assert(v@ =~= start + byte_range(lo, c));
    }
    assert(v@ =~= start + byte_range(lo, hi));
}

/// The character set of the chosen classes.
pub fn build_charset(uppercase: bool, lowercase: bool, number: bool, symbol: bool) -> (r: Vec<u8>)
    ensures
        r@ == charset(uppercase, lowercase, number, symbol),
{
    let mut set: Vec<u8> = Vec::new();
    if uppercase {
        push_range(&mut set, 65, 91);
    }
    let ghost s1 = set@;
    if lowercase {
        push_range(&mut set, 97, 123);
    }
    let ghost s2 = set@;
    if number {
        push_range(&mut set, 48, 58);
    }
    let ghost s3 = set@;
    if symbol {
        set.push(33);
        set.push(64);
        set.push(35);
        set.push(36);
        set.push(37);
        set.push(94);
        set.push(38);
        set.push(42);
        set.push(40);
        set.push(41);
        set.push(45);
        set.push(95);
        set.push(61);
        set.push(43);
        assert(set@ =~= s3 + symbol_bytes());
    }
    assert(set@ =~= charset(uppercase, lowercase, number, symbol));
    set
}

/// One random password of `length` bytes drawn from `set`.
pub fn random_password(length: usize, set: &Vec<u8>) -> (r: Vec<u8>)
    requires
        length > 0 ==> set@.len() > 0,
    ensures
        r@.len() == length,
        drawn_from(r@, set@),
{
    let mut password: Vec<u8> = Vec::new();
    let mut i: usize = 0;
    while i < length
        invariant
            i <= length,
            length > 0 ==> set@.len() > 0,
            password@.len() == i,
            drawn_from(password@, set@),
        decreases length - i,
    {
        let c = pick_byte(set.as_slice());
        match c {
            Some(b) => password.push(b),
            None => {
                assert(false);
            },
        }
        i = i + 1;
    }
    password
}

/// Bytes drawn from any character set of the classes are ASCII.
pub proof fn lemma_charset_ascii(uppercase: bool, lowercase: bool, number: bool, symbol: bool, p: Seq<u8>)
    requires
        drawn_from(p, charset(uppercase, lowercase, number, symbol)),
    ensures
        forall|i: int| 0 <= i < p.len() ==> #[trigger] p[i] < 128,
{
    let set = charset(uppercase, lowercase, number, symbol);
    assert forall|i: int| 0 <= i < p.len() implies #[trigger] p[i] < 128 by {
        assert(set.contains(p[i]));
        let k = choose|k: int| 0 <= k < set.len() && set[k] == p[i];
        assert(set[k] < 128);
    }
}

/// `count` random passwords of `length` characters, each drawn from the
/// chosen character classes.
pub fn process_gen_pass(
    length: usize,
    count: usize,
    uppercase: bool,
    lowercase: bool,
    number: bool,
    symbol: bool,
) -> (r: Result<Vec<String>, CryptoError>)
    requires
        length > 0 && count > 0 ==> uppercase || lowercase || number || symbol,
    ensures
        r matches Ok(ps) && ps@.len() == count && forall|i: int|
            0 <= i < count ==> exists|p: Seq<u8>|
                p.len() == length && drawn_from(p, charset(uppercase, lowercase, number, symbol))
                    && #[trigger] ps@[i]@ == ascii_chars(p),
{
    let set = build_charset(uppercase, lowercase, number, symbol);
    proof {
        if uppercase {
            assert(set@[0] == 65u8);
        } else if lowercase {
            assert(set@[0] == 97u8);
        } else if number {
            assert(set@[0] == 48u8);
        }
    }
    let mut passwords: Vec<String> = Vec::new();
    let mut n: usize = 0;
    while n < count
        invariant
            n <= count,
            set@ == charset(uppercase, lowercase, number, symbol),
            length > 0 && count > 0 ==> set@.len() > 0,
            passwords@.len() == n,
            forall|i: int|
                0 <= i < n ==> exists|p: Seq<u8>|
                    p.len() == length && drawn_from(p, set@) && #[trigger] passwords@[i]@
                        == ascii_chars(p),
        decreases count - n,
    {
        let bytes = random_password(length, &set);
        let ghost p = bytes@;
        proof {
            lemma_charset_ascii(uppercase, lowercase, number, symbol, p);
            lemma_ascii_utf8(p);
        }
        match utf8_string(bytes) {
            Some(s) => {
                passwords.push(s);
                assert(passwords@[n as int]@ == ascii_chars(p));
            },
            None => {
                assert(false);
            },
        }
        n = n + 1;
    }
    Ok(passwords)
}

} // verus!
