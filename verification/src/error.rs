//! The failures of a call.

use vstd::prelude::*;

verus! {

/// Why a connection descriptor could not be produced.
#[derive(Clone, Copy, Debug, PartialEq, Eq, Structural)]
pub enum ConnectError {
    /// A buffer does not have the fixed width that its role demands.
    InvalidLength,
    /// A text that should be hexadecimal is not.
    InvalidEncoding,
    /// The public spend key is not a key of the curve.
    InvalidPublicKey,
    /// No address could be derived from the key material.
    InvalidKeyMaterial,
    /// The PIN code does not have the shape of a PIN.
    InvalidPin,
}

} // verus!
