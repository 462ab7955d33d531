//! Percent-encoding of URL components: every byte of the UTF-8 form except
//! ASCII letters, digits and `-`, `.`, `_`, `~` becomes `%` and two
//! upper-case hex digits.

use vstd::prelude::*;
use vstd::utf8::{decode_utf8, encode_utf8, encode_utf8_decode_utf8};

verus! {

/// Whether a byte is left as it is: an ASCII letter or digit, `-`, `.`, `_` or `~`.
pub open spec fn is_unreserved(b: u8) -> bool {
    (48 <= b && b <= 57) || (65 <= b && b <= 90) || (97 <= b && b <= 122) || b == 45 || b == 46
        || b == 95 || b == 126
}

/// The upper-case hex digit for a value below sixteen.
pub open spec fn hex_digit(d: u8) -> char {
    if d < 10 {
        ((48 + d) as u8) as char
    } else {
        ((55 + d) as u8) as char
    }
}

/// The value of an upper-case hex digit.
pub open spec fn hex_value(c: char) -> u8 {
    if '0' <= c && c <= '9' {
        ((c as u32) - 48) as u8
    } else {
        ((c as u32) - 55) as u8
    }
}

/// The percent-encoding of a byte sequence.
pub open spec fn percent_encode_bytes(bytes: Seq<u8>) -> Seq<char>
    decreases bytes.len(),
{
    if bytes.len() == 0 {
        Seq::empty()
    } else {
        let b = bytes[0];
        let head = if is_unreserved(b) {
            seq![b as char]
        } else {
            seq!['%', hex_digit(b / 16), hex_digit(b % 16)]
        };
        head + percent_encode_bytes(bytes.drop_first())
    }
}

/// The percent-encoding of the UTF-8 form of `s`.
pub open spec fn url_encoded(s: Seq<char>) -> Seq<char> {
    percent_encode_bytes(encode_utf8(s))
}

/// The bytes that a percent-encoded text stands for: `%` and two hex digits
/// give one byte, any other character its own code.
pub open spec fn percent_decode_bytes(t: Seq<char>) -> Seq<u8>
    decreases t.len(),
{
    if t.len() == 0 {
        Seq::empty()
    } else if t[0] == '%' && t.len() >= 3 {
        seq![(hex_value(t[1]) * 16 + hex_value(t[2])) as u8] + percent_decode_bytes(
            t.subrange(3, t.len() as int),
        )
    } else {
        seq![t[0] as u8] + percent_decode_bytes(t.drop_first())
    }
}

/// The text that a percent-encoded text stands for, read as UTF-8.
pub open spec fn url_decoded(t: Seq<char>) -> Seq<char> {
    decode_utf8(percent_decode_bytes(t))
}

proof fn lemma_hex_round_trip(b: u8)
    ensures
        (hex_value(hex_digit(b / 16)) * 16 + hex_value(hex_digit(b % 16))) as u8 == b,
        hex_digit(b / 16) != '%',
{
    let hi = b / 16;
    let lo = b % 16;
    assert(hi < 16 && lo < 16 && hi * 16 + lo == b) by (nonlinear_arith)
        requires
            hi == b / 16,
            lo == b % 16,
    ;
    assert(hex_value(hex_digit(hi)) == hi);
    assert(hex_value(hex_digit(lo)) == lo);
}

proof fn lemma_bytes_round_trip(bytes: Seq<u8>)
    ensures
        percent_decode_bytes(percent_encode_bytes(bytes)) == bytes,
    decreases bytes.len(),
{
    if bytes.len() > 0 {
        let b = bytes[0];
        let rest = bytes.drop_first();
        lemma_bytes_round_trip(rest);
        let t = percent_encode_bytes(bytes);
        let tail = percent_encode_bytes(rest);
        if is_unreserved(b) {
            assert(t == seq![b as char] + tail);
            assert(t.drop_first() =~= tail);
            assert((b as char) as u8 == b);
        } else {
            lemma_hex_round_trip(b);
            assert(t == seq!['%', hex_digit(b / 16), hex_digit(b % 16)] + tail);
            assert(t.subrange(3, t.len() as int) =~= tail);
        }
        assert(percent_decode_bytes(t) =~= seq![b] + rest);
        assert(bytes =~= seq![b] + rest);
    }
}

/// Decoding a percent-encoded text gives back the original text exactly.
pub proof fn lemma_url_encoding_round_trip(s: Seq<char>)
    ensures
        url_decoded(url_encoded(s)) == s,
{
    lemma_bytes_round_trip(encode_utf8(s));
    encode_utf8_decode_utf8(s);
}

/// Whether a character may stand in a percent-encoded text: `%`, or a byte
/// that is left as it is.
pub open spec fn is_encoded_char(c: char) -> bool {
    c == '%' || ((c as u32) < 128 && is_unreserved(c as u32 as u8))
}

proof fn lemma_bytes_alphabet(bytes: Seq<u8>)
    ensures
        forall|i: int|
            0 <= i < percent_encode_bytes(bytes).len() ==> is_encoded_char(
                #[trigger] percent_encode_bytes(bytes)[i],
            ),
    decreases bytes.len(),
{
    if bytes.len() > 0 {
        let b = bytes[0];
        let rest = bytes.drop_first();
        lemma_bytes_alphabet(rest);
        let tail = percent_encode_bytes(rest);
        let head = if is_unreserved(b) {
            seq![b as char]
        } else {
            seq!['%', hex_digit(b / 16), hex_digit(b % 16)]
        };
        assert(b / 16 < 16 && b % 16 < 16);
        assert forall|i: int| 0 <= i < head.len() implies is_encoded_char(head[i]) by {}
        let t = percent_encode_bytes(bytes);
        assert(t == head + tail);
        assert forall|i: int| 0 <= i < t.len() implies is_encoded_char(#[trigger] t[i]) by {
            if i < head.len() {
                assert(t[i] == head[i]);
            } else {
                assert(t[i] == tail[i - head.len()]);
            }
        }
    }
}

/// A percent-encoded text holds only ASCII letters and digits, `-`, `.`,
/// `_`, `~` and `%`: no space, no `&`, `=`, `?`, `#` or `/`, nothing beyond
/// ASCII.
pub proof fn lemma_url_encoded_alphabet(s: Seq<char>)
    ensures
        forall|i: int|
            0 <= i < url_encoded(s).len() ==> is_encoded_char(#[trigger] url_encoded(s)[i]),
{
    lemma_bytes_alphabet(encode_utf8(s));
}

} // verus!
