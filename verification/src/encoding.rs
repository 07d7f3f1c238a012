//! Percent-encoding of every byte that is not an ASCII letter or digit.

use vstd::prelude::*;
use vstd::utf8::{decode_utf8, encode_scalar, encode_utf8, encode_utf8_decode_utf8, leading_byte_width_1};

verus! {

/// Whether `b` is an ASCII letter or digit, the only bytes that are not escaped.
pub open spec fn is_alphanumeric_byte(b: u8) -> bool {
    ||| 0x30 <= b <= 0x39
    ||| 0x41 <= b <= 0x5A
    ||| 0x61 <= b <= 0x7A
}

/// The upper-case hexadecimal digit of a value below 16.
pub open spec fn hex_digit(n: int) -> char
    recommends
        0 <= n < 16,
{
    if n < 10 {
        (0x30 + n) as char
    } else {
        (0x37 + n) as char
    }
}

/// The escape sequence of a byte: `%` and its two hexadecimal digits.
pub open spec fn escape(b: u8) -> Seq<char> {
    seq!['%', hex_digit(b as int / 16), hex_digit(b as int % 16)]
}

/// What one byte becomes: itself if it is a letter or digit, its escape sequence otherwise.
pub open spec fn encode_byte(b: u8) -> Seq<char> {
    if is_alphanumeric_byte(b) {
        seq![b as char]
    } else {
        escape(b)
    }
}

/// The percent-encoding of a byte string, byte by byte.
pub open spec fn percent_encode(bytes: Seq<u8>) -> Seq<char>
    decreases bytes.len(),
{
    if bytes.len() == 0 {
        Seq::empty()
    } else {
        encode_byte(bytes[0]) + percent_encode(bytes.drop_first())
    }
}

/// The percent-encoding of a text: that of its UTF-8 bytes.
pub open spec fn percent_encode_text(text: Seq<char>) -> Seq<char> {
    percent_encode(encode_utf8(text))
}

/// Percent-encodes `text`, escaping everything but ASCII letters and digits.
///
/// Trusted: the body calls `percent_encoding::utf8_percent_encode` with the set
/// `NON_ALPHANUMERIC` and collects what it displays. The contract claims that
/// the result is the UTF-8 encoding of `text` with each ASCII letter and digit
/// kept and every other byte replaced by `%` and two upper-case hexadecimal
/// digits.
#[verifier::external_body]
pub(crate) fn encode_non_alphanumeric(text: &str) -> (encoded: String)
    ensures
        encoded@ == percent_encode_text(text@),
{
    percent_encoding::utf8_percent_encode(text, percent_encoding::NON_ALPHANUMERIC).to_string()
}

/// The value of a hexadecimal digit, in either case.
pub open spec fn hex_value(c: char) -> Option<int> {
    if '0' <= c <= '9' {
        Some(c as int - 0x30)
    } else if 'A' <= c <= 'F' {
        Some(c as int - 0x37)
    } else if 'a' <= c <= 'f' {
        Some(c as int - 0x57)
    } else {
        None
    }
}

/// Whether an escape sequence stands at the start of `text`.
pub open spec fn starts_with_escape(text: Seq<char>) -> bool {
    &&& text.len() >= 3
    &&& text[0] == '%'
    &&& hex_value(text[1]) is Some
    &&& hex_value(text[2]) is Some
}

/// The bytes that a percent-encoded text stands for: each escape sequence
/// gives the byte it names, every other character its own UTF-8 bytes.
pub open spec fn percent_decode(text: Seq<char>) -> Seq<u8>
    decreases text.len(),
{
    if text.len() == 0 {
        Seq::empty()
    } else if starts_with_escape(text) {
        seq![(hex_value(text[1])->0 * 16 + hex_value(text[2])->0) as u8] + percent_decode(
            text.skip(3),
        )
    } else {
        encode_scalar(text[0] as u32) + percent_decode(text.drop_first())
    }
}

/// Whether `c` may occur in an encoded text: `%`, an ASCII letter or a digit.
pub open spec fn is_encoded_char(c: char) -> bool {
    ||| c == '%'
    ||| '0' <= c <= '9'
    ||| 'A' <= c <= 'Z'
    ||| 'a' <= c <= 'z'
}

/// An encoded text holds nothing but `%`, ASCII letters and digits: no other
/// character of the input is left as it is.
pub proof fn encoded_text_is_plain(bytes: Seq<u8>)
    ensures
        forall|i: int|
            0 <= i < percent_encode(bytes).len() ==> is_encoded_char(
                #[trigger] percent_encode(bytes)[i],
            ),
    decreases bytes.len(),
{
    if bytes.len() > 0 {
        let head = encode_byte(bytes[0]);
        let tail = percent_encode(bytes.drop_first());
        encoded_text_is_plain(bytes.drop_first());
        assert forall|i: int| 0 <= i < (head + tail).len() implies is_encoded_char(
            #[trigger] (head + tail)[i],
        ) by {}
    }
}

/// Whether `c` is a digit or one of the letters `A` to `F`.
pub open spec fn is_upper_hex(c: char) -> bool {
    ||| '0' <= c <= '9'
    ||| 'A' <= c <= 'F'
}

/// In an encoded text every `%` begins an escape sequence: two upper-case
/// hexadecimal digits follow it.
pub proof fn percent_signs_begin_escapes(bytes: Seq<u8>)
    ensures
        forall|i: int|
            0 <= i < percent_encode(bytes).len() && #[trigger] percent_encode(bytes)[i] == '%' ==> {
                &&& i + 2 < percent_encode(bytes).len()
                &&& is_upper_hex(percent_encode(bytes)[i + 1])
                &&& is_upper_hex(percent_encode(bytes)[i + 2])
            },
    decreases bytes.len(),
{
    if bytes.len() > 0 {
        let head = encode_byte(bytes[0]);
        let tail = percent_encode(bytes.drop_first());
        let text = head + tail;
        percent_signs_begin_escapes(bytes.drop_first());
        assert forall|i: int| 0 <= i < text.len() && #[trigger] text[i] == '%' implies {
            &&& i + 2 < text.len()
            &&& is_upper_hex(text[i + 1])
            &&& is_upper_hex(text[i + 2])
        } by {}
    }
}

/// An ASCII letter or digit is encoded in UTF-8 as the byte of its code.
proof fn alphanumeric_scalar(b: u8)
    requires
        is_alphanumeric_byte(b),
    ensures
        encode_scalar((b as char) as u32) == seq![b],
{
    let scalar = (b as char) as u32;
    assert(leading_byte_width_1(scalar) == b) by (bit_vector)
        requires
            scalar == b,
            scalar <= 0x7F,
    ;
}

/// Decoding an encoded byte string gives the byte string back.
pub proof fn decoding_restores_bytes(bytes: Seq<u8>)
    ensures
        percent_decode(percent_encode(bytes)) == bytes,
    decreases bytes.len(),
{
    if bytes.len() > 0 {
        let first = bytes[0];
        let rest = bytes.drop_first();
        let text = percent_encode(bytes);
        decoding_restores_bytes(rest);
        if is_alphanumeric_byte(first) {
            alphanumeric_scalar(first);
            assert(text.drop_first() == percent_encode(rest));
        } else {
            assert(text.skip(3) == percent_encode(rest));
        }
    }
}

/// Decoding the encoding of a text and reading the bytes as UTF-8 gives the
/// text back.
pub proof fn decoding_restores_text(text: Seq<char>)
    ensures
        decode_utf8(percent_decode(percent_encode_text(text))) == text,
{
    decoding_restores_bytes(encode_utf8(text));
    encode_utf8_decode_utf8(text);
}

/// The encoding of a text is empty only for the empty text: a field is left
/// out for an empty value and for nothing else, whether the value or its
/// encoding is asked.
pub proof fn encoding_keeps_presence(text: Seq<char>)
    ensures
        percent_encode_text(text).len() == 0 <==> text.len() == 0,
{
}

} // verus!
