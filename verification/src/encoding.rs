//! Hexadecimal text: what it denotes, and the conversions between text and bytes.

use alloy_primitives::hex;
use alloy_primitives::hex::FromHexError;
use vstd::prelude::*;
use vstd::string::*;

verus! {

/// Whether `c` is one of `0`-`9`, `a`-`f`, `A`-`F`.
pub open spec fn is_hex_digit(c: char) -> bool {
    ('0' <= c && c <= '9') || ('a' <= c && c <= 'f') || ('A' <= c && c <= 'F')
}

/// The number a hexadecimal digit stands for.
pub open spec fn hex_digit_value(c: char) -> int {
    if '0' <= c && c <= '9' {
        c as int - '0' as int
    } else if 'a' <= c && c <= 'f' {
        c as int - 'a' as int + 10
    } else {
        c as int - 'A' as int + 10
    }
}

/// The sixteen lowercase digits, each at the index it stands for.
pub open spec fn lower_hex_digits() -> Seq<char> {
    seq!['0', '1', '2', '3', '4', '5', '6', '7', '8', '9', 'a', 'b', 'c', 'd', 'e', 'f']
}

/// Whether the text begins with `0x` or `0X`.
pub open spec fn has_hex_prefix(text: Seq<char>) -> bool {
    text.len() >= 2 && text[0] == '0' && (text[1] == 'x' || text[1] == 'X')
}

/// The text without one leading `0x` or `0X`, if it has one.
pub open spec fn without_hex_prefix(text: Seq<char>) -> Seq<char> {
    if has_hex_prefix(text) {
        text.skip(2)
    } else {
        text
    }
}

/// Whether the text is an even number of hexadecimal digits and nothing else: no prefix, no
/// other character.
pub open spec fn is_hex_digits(digits: Seq<char>) -> bool {
    digits.len() % 2 == 0 && forall|i: int| 0 <= i < digits.len() ==> is_hex_digit(#[trigger] digits[i])
}

/// The bytes that hexadecimal digits denote: each pair of digits is one byte, high digit
/// first.
pub open spec fn hex_digits_bytes(digits: Seq<char>) -> Seq<u8> {
    Seq::new(
        digits.len() / 2,
        |i: int| (16 * hex_digit_value(digits[2 * i]) + hex_digit_value(digits[2 * i + 1])) as u8,
    )
}

/// Whether the text is one optional prefix followed by an even number of hexadecimal digits.
pub open spec fn is_hex_text(text: Seq<char>) -> bool {
    is_hex_digits(without_hex_prefix(text))
}

/// The bytes that hexadecimal text denotes: those of its digits, after one optional prefix.
pub open spec fn hex_text_bytes(text: Seq<char>) -> Seq<u8> {
    hex_digits_bytes(without_hex_prefix(text))
}

/// The lowercase hexadecimal text of `bytes`: two digits per byte, high digit first, no prefix.
pub open spec fn hex_text_of(bytes: Seq<u8>) -> Seq<char> {
    Seq::new(
        2 * bytes.len(),
        |i: int|
            if i % 2 == 0 {
                lower_hex_digits()[bytes[i / 2] as int / 16]
            } else {
                lower_hex_digits()[bytes[i / 2] as int % 16]
            },
    )
}

/// `0x` followed by the lowercase hexadecimal text of `bytes`.
pub open spec fn prefixed_hex_text_of(bytes: Seq<u8>) -> Seq<char> {
    seq!['0', 'x'] + hex_text_of(bytes)
}

/// `const_hex::FromHexError`, the error of a failed decoding. Nothing is read from it.
#[verifier::external_type_specification]
#[verifier::external_body]
pub struct ExFromHexError(FromHexError);

/// `const_hex::decode`, reached as `alloy_primitives::hex::decode`.
///
/// Trusted: the call succeeds exactly on text that, after one optional `0x`/`0X`, is an even
/// number of hexadecimal digits of either case, and then returns one byte per pair of digits.
/// The crate works on the UTF-8 bytes of the text; a character outside ASCII is never a digit,
/// so the statement over characters says the same.
#[verifier::external_body]
pub(crate) fn decode_hex(input: &str) -> (decoded: Result<Vec<u8>, FromHexError>)
    ensures
        decoded is Ok <==> is_hex_text(input@),
        decoded matches Ok(bytes) ==> bytes@ == hex_text_bytes(input@),
{
    hex::decode(input)
}

/// `const_hex::encode`, reached as `alloy_primitives::hex::encode`.
///
/// Trusted: the result is two lowercase hexadecimal digits per byte, in order, without prefix.
#[verifier::external_body]
pub(crate) fn encode_hex(bytes: &[u8]) -> (text: String)
    ensures
        text@ == hex_text_of(bytes@),
{
    hex::encode(bytes)
}

/// Tests whether the text begins with `0x` or `0X`.
pub fn has_0x_prefix(input: &str) -> (prefixed: bool)
    ensures
        prefixed == has_hex_prefix(input@),
{
    if input.unicode_len() >= 2 && input.get_char(0) == '0' {
        let marker = input.get_char(1);
        marker == 'x' || marker == 'X'
    } else {
        false
    }
}

/// Removes one leading `0x` or `0X`.
pub fn strip_0x(input: &str) -> (rest: &str)
    ensures
        rest@ == without_hex_prefix(input@),
{
    if has_0x_prefix(input) {
        input.substring_char(2, input.unicode_len())
    } else {
        input
    }
}

/// `0x` followed by the lowercase hexadecimal digits of `bytes`.
pub fn to_prefixed_hex(bytes: &[u8]) -> (text: String)
    ensures
        text@ == prefixed_hex_text_of(bytes@),
{
    let digits = encode_hex(bytes);
    let mut text = String::from_str("0x");
    text.append(digits.as_str());
    proof {
        reveal_strlit("0x");
    }
    text
}

/// Every lowercase digit is a hexadecimal digit and stands for its index.
pub proof fn lemma_lower_hex_digit(v: int)
    requires
        0 <= v < 16,
    ensures
        is_hex_digit(lower_hex_digits()[v]),
        hex_digit_value(lower_hex_digits()[v]) == v,
{
}

/// Hexadecimal digits never begin with a prefix: the second character of a prefix is no digit.
pub proof fn lemma_hex_digits_have_no_prefix(digits: Seq<char>)
    requires
        is_hex_digits(digits),
    ensures
        !has_hex_prefix(digits),
        is_hex_text(digits),
        hex_text_bytes(digits) == hex_digits_bytes(digits),
{
    if digits.len() >= 2 {
        assert(is_hex_digit(digits[1]));
    }
}

/// A text with two prefixes is not hexadecimal text: only one prefix is allowed.
pub proof fn lemma_second_prefix_is_not_hex_text(text: Seq<char>)
    requires
        has_hex_prefix(without_hex_prefix(text)),
    ensures
        !is_hex_digits(without_hex_prefix(text)),
        !is_hex_text(text),
{
    assert(!is_hex_digit(without_hex_prefix(text)[1]));
}

/// Encoding then decoding gives the bytes back: the lowercase text of any bytes is an even
/// number of hexadecimal digits, and those digits denote the bytes.
pub proof fn lemma_hex_round_trip(bytes: Seq<u8>)
    ensures
        is_hex_digits(hex_text_of(bytes)),
        hex_digits_bytes(hex_text_of(bytes)) == bytes,
        !has_hex_prefix(hex_text_of(bytes)),
        is_hex_text(hex_text_of(bytes)),
        hex_text_bytes(hex_text_of(bytes)) == bytes,
{
    let text = hex_text_of(bytes);
    assert forall|i: int| 0 <= i < text.len() implies is_hex_digit(#[trigger] text[i]) by {
        lemma_lower_hex_digit(bytes[i / 2] as int / 16);
        lemma_lower_hex_digit(bytes[i / 2] as int % 16);
    }
    assert forall|k: int| 0 <= k < bytes.len() implies hex_digits_bytes(text)[k] == bytes[k] by {
        let b = bytes[k] as int;
        lemma_lower_hex_digit(b / 16);
        lemma_lower_hex_digit(b % 16);
    }
    assert(hex_digits_bytes(text) =~= bytes);
    lemma_hex_digits_have_no_prefix(text);
}

/// The prefixed text of any bytes is hexadecimal text too, and denotes the same bytes.
pub proof fn lemma_prefixed_hex_round_trip(bytes: Seq<u8>)
    ensures
        is_hex_text(prefixed_hex_text_of(bytes)),
        hex_text_bytes(prefixed_hex_text_of(bytes)) == bytes,
        without_hex_prefix(prefixed_hex_text_of(bytes)) == hex_text_of(bytes),
{
    lemma_hex_round_trip(bytes);
    assert(prefixed_hex_text_of(bytes).skip(2) =~= hex_text_of(bytes));
}

} // verus!
