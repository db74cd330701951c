//! Decoding the strings of a model: UTF-8 by the standard library,
//! UTF-16LE by the `encoding` crate.
use vstd::prelude::*;
use encoding::{DecoderTrap, Encoding};
use crate::pmx_types::Encode;

verus! {

/// What `String::from_utf8_lossy(bytes)` gives back.
pub uninterp spec fn utf8_lossy(bytes: Seq<u8>) -> Seq<char>;

/// The text of `bytes` decoded leniently: the text they encode where they are
/// UTF-8; otherwise what `String::from_utf8_lossy` makes of them.
pub open spec fn lossy_text(bytes: Seq<u8>) -> Seq<char> {
    if vstd::utf8::valid_utf8(bytes) {
        vstd::utf8::decode_utf8(bytes)
    } else {
        utf8_lossy(bytes)
    }
}

/// The characters of bytes below 0x80, one per byte.
pub open spec fn ascii_chars(b: Seq<u8>) -> Seq<char> {
    Seq::new(b.len(), |i: int| b[i] as char)
}

/// Bytes below 0x80 are UTF-8, one character per byte.
pub proof fn lemma_ascii_utf8(b: Seq<u8>)
    requires
        forall|i: int| 0 <= i < b.len() ==> b[i] < 0x80,
    ensures
        vstd::utf8::valid_utf8(b),
        vstd::utf8::decode_utf8(b) == ascii_chars(b),
    decreases b.len(),
{
    if b.len() > 0 {
        let x = b[0];
        assert(x & 0x7f == x) by (bit_vector)
            requires
                x < 0x80,
        ;
        let t = b.subrange(1, b.len() as int);
        assert(vstd::utf8::pop_first_scalar(b) == t);
        lemma_ascii_utf8(t);
        assert(ascii_chars(b) =~= seq![x as char] + ascii_chars(t));
    }
}

/// The little-endian 16-bit code unit number `i` of `b`.
pub open spec fn code_unit(b: Seq<u8>, i: int) -> int {
    b[2 * i] + 256 * b[2 * i + 1]
}

/// A high (leading) surrogate code unit.
pub open spec fn is_high_surrogate(u: int) -> bool {
    0xD800 <= u <= 0xDBFF
}

/// A low (trailing) surrogate code unit.
pub open spec fn is_low_surrogate(u: int) -> bool {
    0xDC00 <= u <= 0xDFFF
}

/// The text that the bytes `b` hold as strict UTF-16LE: code units of two
/// bytes, least significant first; a unit outside the surrogates is one
/// character, a high surrogate followed by a low one is one character past
/// U+FFFF.  `None` for an odd number of bytes, a lone low surrogate, or a
/// high surrogate not followed by a low one.
pub open spec fn utf16le_text(b: Seq<u8>) -> Option<Seq<char>>
    decreases b.len(),
{
    if b.len() == 0 {
        Some(Seq::empty())
    } else if b.len() < 2 {
        None
    } else if is_low_surrogate(code_unit(b, 0)) {
        None
    } else if is_high_surrogate(code_unit(b, 0)) {
        if b.len() < 4 || !is_low_surrogate(code_unit(b, 1)) {
            None
        } else {
            match utf16le_text(b.skip(4)) {
                Some(rest) => Some(
                    seq![(0x10000 + (code_unit(b, 0) - 0xD800) * 1024 + (code_unit(b, 1) - 0xDC00)) as char]
                        + rest,
                ),
                None => None,
            }
        }
    } else {
        match utf16le_text(b.skip(2)) {
            Some(rest) => Some(seq![code_unit(b, 0) as char] + rest),
            None => None,
        }
    }
}

/// `b` is a whole number of code units, none of them a surrogate (0xD800 to 0xDFFF).
pub open spec fn bmp_units_only(b: Seq<u8>) -> bool {
    &&& b.len() % 2 == 0
    &&& forall|i: int|
        0 <= i < b.len() / 2 ==> #[trigger] code_unit(b, i) < 0xD800 || code_unit(b, i) >= 0xE000
}

/// The characters of `b` read as code units that each stand for one character.
pub open spec fn bmp_chars(b: Seq<u8>) -> Seq<char> {
    Seq::new((b.len() / 2) as nat, |i: int| code_unit(b, i) as char)
}

/// An odd number of bytes is never UTF-16LE text.
pub proof fn lemma_utf16le_odd(b: Seq<u8>)
    requires
        b.len() % 2 == 1,
    ensures
        utf16le_text(b) is None,
    decreases b.len(),
{
    if b.len() >= 4 {
        lemma_utf16le_odd(b.skip(4));
    }
    if b.len() >= 2 {
        lemma_utf16le_odd(b.skip(2));
    }
}

/// Code units that are no surrogates decode to one character each.
pub proof fn lemma_utf16le_bmp(b: Seq<u8>)
    requires
        bmp_units_only(b),
    ensures
        utf16le_text(b) == Some(bmp_chars(b)),
    decreases b.len(),
{
    if b.len() > 0 {
        let t = b.skip(2);
        assert forall|i: int| 0 <= i < t.len() / 2 implies #[trigger] code_unit(t, i) < 0xD800
            || code_unit(t, i) >= 0xE000 by {
            assert(code_unit(t, i) == code_unit(b, i + 1));
        }
        assert(code_unit(b, 0) < 0xD800 || code_unit(b, 0) >= 0xE000);
        lemma_utf16le_bmp(t);
        assert(bmp_chars(b) =~= seq![code_unit(b, 0) as char] + bmp_chars(t)) by {
            assert forall|i: int| 0 <= i < bmp_chars(t).len() implies #[trigger] bmp_chars(t)[i]
                == bmp_chars(b)[i + 1] by {
                assert(code_unit(t, i) == code_unit(b, i + 1));
            }
        }
    }
}

/// The text that the bytes `b` hold in encoding `enc`, or `None` where they hold none.
pub open spec fn decode_text(b: Seq<u8>, enc: Encode) -> Option<Seq<char>> {
    match enc {
        Encode::UTF8 => if vstd::utf8::valid_utf8(b) {
            Some(vstd::utf8::decode_utf8(b))
        } else {
            None
        },
        Encode::Utf16Le => utf16le_text(b),
    }
}

/// Calls `String::from_utf8`, whose documentation says that it fails exactly
/// on bytes that are not UTF-8 and otherwise holds the text they encode.
#[verifier::external_body]
fn string_from_utf8(bytes: Vec<u8>) -> (r: Option<String>)
    ensures
        r is Some <==> vstd::utf8::valid_utf8(bytes@),
        r is Some ==> r->0@ == vstd::utf8::decode_utf8(bytes@),
{
    String::from_utf8(bytes).ok()
}

/// Calls `encoding::all::UTF_16LE.decode` with `DecoderTrap::Strict`.
/// Claimed: it succeeds exactly on strict UTF-16LE (`utf16le_text`) and then
/// gives that text.  In the crate's decoder (`raw_feed` and `raw_finish` of
/// `codec/utf_16.rs`) a lone low surrogate, a high surrogate without a low one
/// after it, and a byte left over at the end are errors, no byte-order mark
/// is removed, and the strict trap turns every error into `Err`.
#[verifier::external_body]
fn decode_utf16le(bytes: &[u8]) -> (r: Option<String>)
    ensures
        r is Some <==> utf16le_text(bytes@) is Some,
        r is Some ==> r->0@ == utf16le_text(bytes@)->0,
{
    encoding::all::UTF_16LE.decode(bytes, DecoderTrap::Strict).ok()
}

/// Calls `String::from_utf8_lossy` and copies the result into a `String`.
/// Claimed: the result is the named `utf8_lossy`, and on valid UTF-8 it is
/// the text the bytes encode, as the documentation says.
#[verifier::external_body]
pub(crate) fn string_from_utf8_lossy(bytes: &[u8]) -> (r: String)
    ensures
        r@ == utf8_lossy(bytes@),
        vstd::utf8::valid_utf8(bytes@) ==> r@ == vstd::utf8::decode_utf8(bytes@),
{
    String::from_utf8_lossy(bytes).to_string()
}

/// Decodes `bytes` in the encoding `enc`; `None` where they are no text in it.
pub fn decode(bytes: Vec<u8>, enc: Encode) -> (r: Option<String>)
    ensures
        r is Some <==> decode_text(bytes@, enc) is Some,
        r is Some ==> r->0@ == decode_text(bytes@, enc)->0,
{
    match enc {
        Encode::UTF8 => string_from_utf8(bytes),
        Encode::Utf16Le => decode_utf16le(bytes.as_slice()),
    }
}

/// The character of decimal digit `d`.
pub open spec fn digit_char(d: int) -> char {
    ('0' as int + d) as char
}

/// The decimal numeral of `n`, without leading zeros.
pub open spec fn decimal(n: nat) -> Seq<char>
    decreases n,
{
    if n < 10 {
        seq![digit_char(n as int)]
    } else {
        decimal(n / 10).push(digit_char((n % 10) as int))
    }
}

/// The one-character text of decimal digit `d`.
fn digit_str(d: u64) -> (r: &'static str)
    requires
        d < 10,
    ensures
        r@ == seq![digit_char(d as int)],
{
    match d {
        0 => {
            proof { reveal_strlit("0"); }
            "0"
        },
        1 => {
            proof { reveal_strlit("1"); }
            "1"
        },
        2 => {
            proof { reveal_strlit("2"); }
            "2"
        },
        3 => {
            proof { reveal_strlit("3"); }
            "3"
        },
        4 => {
            proof { reveal_strlit("4"); }
            "4"
        },
        5 => {
            proof { reveal_strlit("5"); }
            "5"
        },
        6 => {
            proof { reveal_strlit("6"); }
            "6"
        },
        7 => {
            proof { reveal_strlit("7"); }
            "7"
        },
        8 => {
            proof { reveal_strlit("8"); }
            "8"
        },
        _ => {
            proof { reveal_strlit("9"); }
            "9"
        },
    }
}

/// Appends the decimal numeral of `n` to `s`.
fn push_decimal(s: &mut String, n: u64)
    ensures
        final(s)@ == old(s)@ + decimal(n as nat),
    decreases n,
{
    if n >= 10 {
        push_decimal(s, n / 10);
    }
    s.append(digit_str(n % 10));
    proof {
        if n >= 10 {
            assert(decimal(n as nat) == decimal((n / 10) as nat).push(digit_char((n % 10) as int)));
        }
    }
}

/// The decimal numeral of `n`.
pub fn decimal_string(n: u64) -> (r: String)
    ensures
        r@ == decimal(n as nat),
{
    let mut s = String::new();
    push_decimal(&mut s, n);
    s
}

} // verus!
