//! Hex text, memo trimming and UTF-8 text, with their exact models.

use vstd::prelude::*;

verus! {

/// The value of a hexadecimal digit of either case, if `c` is one.
pub open spec fn hex_digit_value(c: char) -> Option<u8> {
    if '0' <= c && c <= '9' {
        Some((c as u32 - '0' as u32) as u8)
    } else if 'a' <= c && c <= 'f' {
        Some((c as u32 - 'a' as u32 + 10) as u8)
    } else if 'A' <= c && c <= 'F' {
        Some((c as u32 - 'A' as u32 + 10) as u8)
    } else {
        None
    }
}

/// Text that decodes as hex: an even number of hexadecimal digits.
pub open spec fn is_hex_text(s: Seq<char>) -> bool {
    s.len() % 2 == 0 && forall|i: int| 0 <= i < s.len() ==> (#[trigger] hex_digit_value(s[i])) is Some
}

/// The bytes that hex text stands for, two digits per byte, high digit first.
pub open spec fn hex_bytes(s: Seq<char>) -> Seq<u8> {
    Seq::new(
        s.len() / 2,
        |i: int| (hex_digit_value(s[2 * i])->0 * 16 + hex_digit_value(s[2 * i + 1])->0) as u8,
    )
}

/// The lowercase hexadecimal digit for a value below sixteen.
pub open spec fn hex_digit_char(d: int) -> char {
    if d < 10 {
        (48 + d) as char
    } else {
        (87 + d) as char
    }
}

/// Lowercase hex text of a byte sequence, two digits per byte, high digit first.
pub open spec fn hex_text(b: Seq<u8>) -> Seq<char> {
    Seq::new(
        2 * b.len(),
        |i: int| if i % 2 == 0 { hex_digit_char(b[i / 2] as int / 16) } else { hex_digit_char(b[i / 2] as int % 16) },
    )
}

/// Error of `hex::decode`.
#[verifier::external_type_specification]
#[verifier::external_body]
pub struct ExFromHexError(hex::FromHexError);

/// Relies on `hex::decode`: it accepts exactly an even number of hex digits
/// (either case) and yields one byte per pair, high digit first.
#[verifier::external_body]
pub(crate) fn hex_decode(s: &str) -> (r: Result<Vec<u8>, hex::FromHexError>)
    ensures
        r is Ok <==> is_hex_text(s@),
        r is Ok ==> r->Ok_0@ == hex_bytes(s@),
{
    hex::decode(s)
}

/// Relies on `hex::encode`: two lowercase hex digits per byte, high digit first.
#[verifier::external_body]
pub(crate) fn hex_encode(b: &[u8]) -> (r: String)
    ensures
        r@ == hex_text(b@),
{
    hex::encode(b)
}

/// Relies on `String::from_utf8`: it succeeds exactly on valid UTF-8 and then
/// holds the decoded characters.
#[verifier::external_body]
pub(crate) fn utf8_string(b: Vec<u8>) -> (r: Option<String>)
    ensures
        r is Some <==> vstd::utf8::valid_utf8(b@),
        r is Some ==> r->0@ == vstd::utf8::decode_utf8(b@),
{
    String::from_utf8(b).ok()
}

/// The bytes left once every trailing zero byte is removed.
pub open spec fn trim_trailing_zeros(m: Seq<u8>) -> Seq<u8>
    decreases m.len(),
{
    if m.len() > 0 && m.last() == 0 {
        trim_trailing_zeros(m.drop_last())
    } else {
        m
    }
}

/// The text of a memo field: its bytes without trailing zeros, when that is
/// non-empty valid UTF-8.
pub open spec fn memo_text(m: Seq<u8>) -> Option<Seq<char>> {
    let t = trim_trailing_zeros(m);
    if t.len() > 0 && vstd::utf8::valid_utf8(t) {
        Some(vstd::utf8::decode_utf8(t))
    } else {
        None
    }
}

proof fn lemma_trim_is_prefix(m: Seq<u8>, n: int)
    requires
        0 <= n <= m.len(),
        forall|i: int| n <= i < m.len() ==> m[i] == 0,
    ensures
        trim_trailing_zeros(m) == trim_trailing_zeros(m.subrange(0, n)),
    decreases m.len(),
{
    if m.len() > n {
        assert(m.drop_last().subrange(0, n) == m.subrange(0, n));
        lemma_trim_is_prefix(m.drop_last(), n);
    } else {
        assert(m.subrange(0, n) == m);
    }
}

/// Removes the trailing zero bytes of a memo field.
pub fn trim_memo(m: &[u8]) -> (r: Vec<u8>)
    ensures
        r@ == trim_trailing_zeros(m@),
{
    let mut n: usize = m.len();
    while n > 0 && m[n - 1] == 0
        invariant
            n <= m@.len(),
            forall|i: int| n <= i < m@.len() ==> m@[i] == 0,
        decreases n,
    {
        n = n - 1;
    }
    proof {
        lemma_trim_is_prefix(m@, n as int);
        if n > 0 {
            assert(m@.subrange(0, n as int).last() != 0);
        }
    }
    let mut r: Vec<u8> = Vec::new();
    let mut i: usize = 0;
    while i < n
        invariant
            i <= n <= m@.len(),
            r@ == m@.subrange(0, i as int),
        decreases n - i,
    {
        r.push(m[i]);
        i = i + 1;
        assert(r@ == m@.subrange(0, i as int));
    }
    r
}

/// The text of a memo field, as `memo_text` defines it.
pub fn decode_memo(m: &[u8]) -> (r: Option<String>)
    ensures
        r is Some <==> memo_text(m@) is Some,
        r is Some ==> r->0@ == memo_text(m@)->0,
{
    let t = trim_memo(m);
    if t.len() == 0 {
        None
    } else {
        utf8_string(t)
    }
}

} // verus!
