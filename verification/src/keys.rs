//! Keys that arrive as text.

use crate::boundary::{safe_parse_key, PRIVATE_KEY_LEN};
use crate::error::ConnectError;
use crate::hex_text::{decode, decode_hex, hex_bytes, is_hex_text};
use vstd::prelude::*;

verus! {

/// What a private view key given as text comes to: its bytes, or the reason for
/// which the text is refused. A text that is not hexadecimal is refused before
/// its width is looked at.
pub open spec fn private_view_key_of(text: Seq<char>) -> Result<Seq<u8>, ConnectError> {
    if !is_hex_text(text) {
        Err(ConnectError::InvalidEncoding)
    } else if hex_bytes(text).len() != PRIVATE_KEY_LEN {
        Err(ConnectError::InvalidLength)
    } else {
        Ok(hex_bytes(text))
    }
}

/// Decodes a private view key from its hexadecimal text and checks its width.
pub fn parse_private_view_key(text: &str) -> (parsed: Result<
    [u8; PRIVATE_KEY_LEN],
    ConnectError,
>)
    ensures
        private_view_key_of(text@) matches Ok(bytes) ==> parsed is Ok && parsed->Ok_0@ == bytes,
        private_view_key_of(text@) matches Err(error) ==> parsed is Err && parsed->Err_0 == error,
{
    match decode_hex(text) {
        Ok(bytes) => safe_parse_key(bytes.as_slice()),
        Err(error) => Err(error),
    }
}

/// Tells whether a public spend key given as text is written in hexadecimal.
/// Whether the bytes are a key of the curve is for the key library to say.
pub fn is_encoded_key(text: &str) -> (encoded: bool)
    ensures
        encoded == is_hex_text(text@),
{
    decode(text).is_ok()
}

} // verus!
