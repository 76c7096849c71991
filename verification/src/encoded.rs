//! What goes back to the caller: a text payload or the code of a failure.

use crate::descriptor::{descriptor, WalletConnectionDescriptor};
use crate::error::ConnectError;
use vstd::prelude::*;

verus! {

/// What crosses the boundary back to the caller, as a mathematical value.
pub enum EncodedView {
    Text(Seq<char>),
    Error(ConnectError),
}

/// What crosses the boundary back to the caller: a text payload in one part,
/// or the code of the failure.
#[derive(Debug, PartialEq, Eq)]
pub enum UREncodeResult {
    Text(String),
    Error(ConnectError),
}

impl View for UREncodeResult {
    type V = EncodedView;

    open spec fn view(&self) -> EncodedView {
        match self {
            UREncodeResult::Text(data) => EncodedView::Text(data@),
            UREncodeResult::Error(error) => EncodedView::Error(*error),
        }
    }
}

impl UREncodeResult {
    /// The result that carries `data` as its text payload.
    pub fn text(data: String) -> (made: Self)
        ensures
            made@ == EncodedView::Text(data@),
    {
        UREncodeResult::Text(data)
    }
}

impl From<ConnectError> for UREncodeResult {
    /// The result that reports `error`.
    fn from(error: ConnectError) -> (made: Self) {
        UREncodeResult::Error(error)
    }
}

impl vstd::std_specs::convert::FromSpecImpl<ConnectError> for UREncodeResult {
    open spec fn obeys_from_spec() -> bool {
        true
    }

    open spec fn from_spec(error: ConnectError) -> Self {
        UREncodeResult::Error(error)
    }
}

/// Assembles the descriptor with the given fields and flag, and wraps its JSON
/// text as a text payload.
pub fn generate_wallet_result(
    primary_address: String,
    private_view_key: String,
    is_encrypted: bool,
) -> (result: UREncodeResult)
    ensures
        result@ == EncodedView::Text(
            descriptor(primary_address@, private_view_key@, is_encrypted).json_text(),
        ),
{
    let record = WalletConnectionDescriptor::new(primary_address, private_view_key, is_encrypted);
    UREncodeResult::text(record.to_json())
}

} // verus!
