//! Fixed-width buffers that arrive from a foreign caller.

use crate::error::ConnectError;
use vstd::prelude::*;

verus! {

/// Width in bytes of a private key of the curve.
pub const PRIVATE_KEY_LEN: usize = 32;

/// Width in bytes of a PIN code.
pub const PINCODE_LEN: usize = 6;

/// Takes a private key out of a caller's buffer.
///
/// The buffer is accepted exactly when it is `PRIVATE_KEY_LEN` bytes wide, and
/// the key is then an owned copy of it.
pub fn safe_parse_key(decrypt_key: &[u8]) -> (parsed: Result<[u8; PRIVATE_KEY_LEN], ConnectError>)
    ensures
        decrypt_key@.len() == PRIVATE_KEY_LEN ==> parsed is Ok && parsed->Ok_0@ == decrypt_key@,
        decrypt_key@.len() != PRIVATE_KEY_LEN ==> parsed is Err && parsed->Err_0
            == ConnectError::InvalidLength,
{
    if decrypt_key.len() != PRIVATE_KEY_LEN {
        return Err(ConnectError::InvalidLength);
    }
    let mut key = [0u8; PRIVATE_KEY_LEN];
    let mut i: usize = 0;
    while i < PRIVATE_KEY_LEN
        invariant
            i <= PRIVATE_KEY_LEN,
            decrypt_key@.len() == PRIVATE_KEY_LEN,
            forall|j: int| 0 <= j < i ==> key@[j] == decrypt_key@[j],
        decreases PRIVATE_KEY_LEN - i,
    {
        key[i] = decrypt_key[i];
        i += 1;
    }
    assert(key@ =~= decrypt_key@);
    Ok(key)
}

/// Takes a PIN code out of a caller's buffer.
///
/// The buffer is accepted exactly when it is `PINCODE_LEN` bytes wide, and the
/// PIN is then an owned copy of it.
pub fn safe_parse_pincode(pincode: &[u8]) -> (parsed: Result<[u8; PINCODE_LEN], ConnectError>)
    ensures
        pincode@.len() == PINCODE_LEN ==> parsed is Ok && parsed->Ok_0@ == pincode@,
        pincode@.len() != PINCODE_LEN ==> parsed is Err && parsed->Err_0
            == ConnectError::InvalidLength,
{
    if pincode.len() != PINCODE_LEN {
        return Err(ConnectError::InvalidLength);
    }
    let mut pin = [0u8; PINCODE_LEN];
    let mut i: usize = 0;
    while i < PINCODE_LEN
        invariant
            i <= PINCODE_LEN,
            pincode@.len() == PINCODE_LEN,
            forall|j: int| 0 <= j < i ==> pin@[j] == pincode@[j],
        decreases PINCODE_LEN - i,
    {
        pin[i] = pincode[i];
        i += 1;
    }
    assert(pin@ =~= pincode@);
    Ok(pin)
}

} // verus!
