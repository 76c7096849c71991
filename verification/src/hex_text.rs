//! Hexadecimal text: what it writes, and the codec that reads and writes it.

use crate::error::ConnectError;
use vstd::prelude::*;

verus! {

/// `hex::FromHexError`, the error of `hex::decode`. It is carried through and
/// never looked into.
#[verifier::external_type_specification]
#[verifier::external_body]
pub struct ExFromHexError(hex::FromHexError);

/// Tells whether `c` is one of `0` to `9`, `a` to `f` or `A` to `F`.
pub open spec fn is_hex_digit(c: char) -> bool {
    ('0' <= c <= '9') || ('a' <= c <= 'f') || ('A' <= c <= 'F')
}

/// The number from 0 to 15 that the hexadecimal digit `c` stands for.
pub open spec fn hex_digit_value(c: char) -> int {
    if '0' <= c <= '9' {
        c as int - '0' as int
    } else if 'a' <= c <= 'f' {
        c as int - 'a' as int + 10
    } else {
        c as int - 'A' as int + 10
    }
}

/// The lower-case hexadecimal digit for a number from 0 to 15.
pub open spec fn lower_hex_digit(n: int) -> char {
    if n < 10 {
        ('0' as int + n) as char
    } else {
        ('a' as int + n - 10) as char
    }
}

/// The letters `A` to `F` in lower case, every other character unchanged.
pub open spec fn lower_case(c: char) -> char {
    if 'A' <= c <= 'F' {
        (c as int - 'A' as int + 'a' as int) as char
    } else {
        c
    }
}

/// Tells whether `text` writes a sequence of bytes in hexadecimal: an even
/// number of characters, each of them a hexadecimal digit of either case.
pub open spec fn is_hex_text(text: Seq<char>) -> bool {
    &&& text.len() % 2 == 0
    &&& forall|i: int| 0 <= i < text.len() ==> is_hex_digit(#[trigger] text[i])
}

/// The bytes that a hexadecimal text writes, two digits to the byte, the high
/// half first.
pub open spec fn hex_bytes(text: Seq<char>) -> Seq<u8> {
    Seq::new(
        text.len() / 2,
        |i: int| (16 * hex_digit_value(text[2 * i]) + hex_digit_value(text[2 * i + 1])) as u8,
    )
}

/// The lower-case hexadecimal text of `bytes`, two digits to the byte, the high
/// half first.
pub open spec fn hex_lower(bytes: Seq<u8>) -> Seq<char> {
    Seq::new(
        2 * bytes.len(),
        |i: int|
            lower_hex_digit(
                if i % 2 == 0 {
                    bytes[i / 2] as int / 16
                } else {
                    bytes[i / 2] as int % 16
                },
            ),
    )
}

/// `hex::decode` on a string slice. It succeeds exactly on a hexadecimal text
/// of even length, digits of either case, and then returns the bytes that the
/// text writes; on any other text it returns an error.
#[verifier::external_body]
pub(crate) fn decode(text: &str) -> (decoded: Result<Vec<u8>, hex::FromHexError>)
    ensures
        decoded is Ok <==> is_hex_text(text@),
        decoded matches Ok(bytes) ==> bytes@ == hex_bytes(text@),
{
    hex::decode(text)
}

/// `hex::encode` on a byte slice. It returns two lower-case hexadecimal digits
/// for each byte, in order, the high half of a byte first.
#[verifier::external_body]
pub(crate) fn encode(bytes: &[u8]) -> (text: String)
    ensures
        text@ == hex_lower(bytes@),
{
    hex::encode(bytes)
}

/// Decodes a hexadecimal text into the bytes that it writes.
///
/// A text with an odd number of characters, or with a character that is no
/// hexadecimal digit, is refused as `InvalidEncoding`.
pub fn decode_hex(text: &str) -> (decoded: Result<Vec<u8>, ConnectError>)
    ensures
        is_hex_text(text@) ==> decoded is Ok && decoded->Ok_0@ == hex_bytes(text@),
        !is_hex_text(text@) ==> decoded is Err && decoded->Err_0 == ConnectError::InvalidEncoding,
{
    match decode(text) {
        Ok(bytes) => Ok(bytes),
        Err(_) => Err(ConnectError::InvalidEncoding),
    }
}

/// Encoding bytes and decoding the text gives the bytes back.
pub proof fn lemma_decode_of_encode(bytes: Seq<u8>)
    ensures
        is_hex_text(hex_lower(bytes)),
        hex_bytes(hex_lower(bytes)) == bytes,
{
    let text = hex_lower(bytes);
    assert forall|i: int| 0 <= i < text.len() implies is_hex_digit(#[trigger] text[i]) by {
        let b = bytes[i / 2] as int;
        assert(0 <= b / 16 < 16 && 0 <= b % 16 < 16);
    }
    assert forall|i: int| 0 <= i < bytes.len() implies hex_bytes(text)[i] == bytes[i] by {
        let b = bytes[i] as int;
        assert(0 <= b / 16 < 16 && 0 <= b % 16 < 16);
        assert((2 * i) / 2 == i && (2 * i + 1) / 2 == i);
        assert((2 * i) % 2 == 0 && (2 * i + 1) % 2 == 1);
        assert(hex_digit_value(text[2 * i]) == b / 16);
        assert(hex_digit_value(text[2 * i + 1]) == b % 16);
        assert(16 * (b / 16) + b % 16 == b);
    }
    assert(hex_bytes(text) =~= bytes);
}

/// Decoding a hexadecimal text and encoding the bytes gives the text back in
/// lower case; a text that holds no upper-case digit comes back unchanged.
pub proof fn lemma_encode_of_decode(text: Seq<char>)
    requires
        is_hex_text(text),
    ensures
        hex_lower(hex_bytes(text)) == text.map_values(|c: char| lower_case(c)),
        (forall|i: int| 0 <= i < text.len() ==> !('A' <= #[trigger] text[i] <= 'F')) ==> hex_lower(
            hex_bytes(text),
        ) == text,
{
    let bytes = hex_bytes(text);
    let lowered = text.map_values(|c: char| lower_case(c));
    assert forall|i: int| 0 <= i < text.len() implies hex_lower(bytes)[i] == lowered[i] by {
        let k = i / 2;
        let hi = hex_digit_value(text[2 * k]);
        let lo = hex_digit_value(text[2 * k + 1]);
        assert(is_hex_digit(text[2 * k]) && is_hex_digit(text[2 * k + 1]));
        assert(0 <= hi < 16 && 0 <= lo < 16);
        assert(bytes[k] as int == 16 * hi + lo);
        assert((16 * hi + lo) / 16 == hi && (16 * hi + lo) % 16 == lo);
        assert(is_hex_digit(text[i]));
        if i % 2 == 0 {
            assert(i == 2 * k);
        } else {
            assert(i == 2 * k + 1);
        }
    }
    assert(hex_lower(bytes) =~= lowered);
    if forall|i: int| 0 <= i < text.len() ==> !('A' <= #[trigger] text[i] <= 'F') {
        assert(lowered =~= text);
    }
}

} // verus!
