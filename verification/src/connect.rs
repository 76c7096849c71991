//! The two calls that produce a descriptor, as a machine of steps.
//!
//! The library cannot derive an address or encrypt a text itself. A call
//! therefore proceeds in steps: an entry point checks what the caller gave and
//! asks its driver for the address; `advance` takes what the driver reports and
//! either asks for more or ends the call. Every decision is taken here; the
//! driver only does what a `Request` says and reports it as an `Event`.

use crate::boundary::{safe_parse_pincode, PINCODE_LEN, PRIVATE_KEY_LEN};
use crate::descriptor::descriptor;
use crate::encoded::{generate_wallet_result, EncodedView, UREncodeResult};
use crate::error::ConnectError;
use crate::hex_text::{encode, hex_bytes, hex_lower, is_hex_text, lower_case};
use crate::hex_text::{lemma_decode_of_encode, lemma_encode_of_decode};
use crate::keys::{is_encoded_key, parse_private_view_key, private_view_key_of};
use vstd::prelude::*;

verus! {

/// The networks on which an address can be valid.
#[derive(Clone, Copy, Debug, PartialEq, Eq, Structural)]
pub enum Network {
    Mainnet,
    Testnet,
    Stagenet,
}

/// The kinds of address that a pair of keys can have.
#[derive(Clone, Copy, Debug, PartialEq, Eq, Structural)]
pub enum AddressType {
    Standard,
    Subaddress,
}

/// What the library asks of its driver: one piece of work that only the key
/// library or the cipher can do.
#[derive(Debug, PartialEq, Eq)]
pub enum Request {
    /// Parse the public spend key, compute the public view key from the
    /// private one, and format the address of the pair.
    DeriveAddress {
        network: Network,
        address_type: AddressType,
        pub_spend_key: String,
        private_view_key: [u8; PRIVATE_KEY_LEN],
    },
    /// Encrypt each of the two texts, the address and the private view key in
    /// hexadecimal, on its own, under the PIN code.
    Encrypt { primary_address: String, view_key_hex: String, pincode: [u8; PINCODE_LEN] },
}

/// A request as a mathematical value.
pub enum RequestView {
    DeriveAddress {
        network: Network,
        address_type: AddressType,
        pub_spend_key: Seq<char>,
        private_view_key: Seq<u8>,
    },
    Encrypt { primary_address: Seq<char>, view_key_hex: Seq<char>, pincode: Seq<u8> },
}

impl View for Request {
    type V = RequestView;

    open spec fn view(&self) -> RequestView {
        match self {
            Request::DeriveAddress { network, address_type, pub_spend_key, private_view_key } => {
                RequestView::DeriveAddress {
                    network: *network,
                    address_type: *address_type,
                    pub_spend_key: pub_spend_key@,
                    private_view_key: private_view_key@,
                }
            },
            Request::Encrypt { primary_address, view_key_hex, pincode } => {
                RequestView::Encrypt {
                    primary_address: primary_address@,
                    view_key_hex: view_key_hex@,
                    pincode: pincode@,
                }
            },
        }
    }
}

/// What the driver reports back once it has done, or failed to do, what was
/// asked of it.
#[derive(Debug, PartialEq, Eq)]
pub enum Event {
    /// The address of the pair of keys.
    AddressDerived(String),
    /// The key library refused the public spend key.
    PublicKeyRejected,
    /// The key library could not derive an address from the key material.
    DerivationFailed,
    /// The ciphertext of each of the two texts of the request.
    Encrypted { primary_address: Vec<u8>, view_key_hex: Vec<u8> },
}

/// An event as a mathematical value.
pub enum EventView {
    AddressDerived(Seq<char>),
    PublicKeyRejected,
    DerivationFailed,
    Encrypted { primary_address: Seq<u8>, view_key_hex: Seq<u8> },
}

impl View for Event {
    type V = EventView;

    open spec fn view(&self) -> EventView {
        match self {
            Event::AddressDerived(address) => EventView::AddressDerived(address@),
            Event::PublicKeyRejected => EventView::PublicKeyRejected,
            Event::DerivationFailed => EventView::DerivationFailed,
            Event::Encrypted { primary_address, view_key_hex } => EventView::Encrypted {
                primary_address: primary_address@,
                view_key_hex: view_key_hex@,
            },
        }
    }
}

#[derive(Debug)]
enum Stage {
    Validated { private_view_key: [u8; PRIVATE_KEY_LEN], pincode: Option<[u8; PINCODE_LEN]> },
    Derived,
}

/// A call that waits for its driver. Only the entry points and `advance` make
/// one, so a driver cannot skip a check.
#[derive(Debug)]
pub struct Pending {
    stage: Stage,
}

/// A waiting call as a mathematical value.
pub enum PendingView {
    /// The widths and the encodings are checked; the address is awaited. With
    /// a PIN code the fields are to be encrypted.
    Validated { private_view_key: Seq<u8>, pincode: Option<Seq<u8>> },
    /// The address is derived; the ciphertexts are awaited.
    Derived,
}

impl View for Pending {
    type V = PendingView;

    closed spec fn view(&self) -> PendingView {
        match self.stage {
            Stage::Validated { private_view_key, pincode } => PendingView::Validated {
                private_view_key: private_view_key@,
                pincode: match pincode {
                    Some(pin) => Some(pin@),
                    None => None,
                },
            },
            Stage::Derived => PendingView::Derived,
        }
    }
}

/// Where a call stands after a step: it waits for its driver to answer a
/// request, or it is over and holds what goes back to the caller.
#[derive(Debug)]
pub enum Step {
    Continue { pending: Pending, request: Request },
    Finish(UREncodeResult),
}

/// A step as a mathematical value.
pub enum StepView {
    Continue { pending: PendingView, request: RequestView },
    Finish(EncodedView),
}

impl View for Step {
    type V = StepView;

    open spec fn view(&self) -> StepView {
        match self {
            Step::Continue { pending, request } => StepView::Continue {
                pending: pending@,
                request: request@,
            },
            Step::Finish(result) => StepView::Finish(result@),
        }
    }
}

/// The step that ends a call with a failure.
pub open spec fn failed(error: ConnectError) -> StepView {
    StepView::Finish(EncodedView::Error(error))
}

/// The first step of a call, without a PIN code or with one.
///
/// The checks are made in this order, and the first that fails ends the call:
/// the private view key is hexadecimal (`InvalidEncoding`) and as wide as a
/// private key (`InvalidLength`), the PIN code, if there is one, is as wide as
/// a PIN code (`InvalidPin`), the public spend key is hexadecimal
/// (`InvalidPublicKey`). After them the address of the pair is asked for: a
/// standard address on the main network.
pub open spec fn start(
    pub_spend_key: Seq<char>,
    private_view_key: Seq<char>,
    pincode: Option<Seq<u8>>,
) -> StepView {
    match private_view_key_of(private_view_key) {
        Err(error) => failed(error),
        Ok(key) => if pincode is Some && pincode->0.len() != PINCODE_LEN {
            failed(ConnectError::InvalidPin)
        } else if !is_hex_text(pub_spend_key) {
            failed(ConnectError::InvalidPublicKey)
        } else {
            StepView::Continue {
                pending: PendingView::Validated { private_view_key: key, pincode },
                request: RequestView::DeriveAddress {
                    network: Network::Mainnet,
                    address_type: AddressType::Standard,
                    pub_spend_key,
                    private_view_key: key,
                },
            }
        },
    }
}

/// The step that follows when a waiting call is told of an event.
///
/// Once the address is there, a call without a PIN code ends with the
/// descriptor of the address and of the private view key in hexadecimal, in the
/// clear; a call with one asks for these two texts to be encrypted, and ends,
/// once the ciphertexts are there, with the descriptor of the two ciphertexts
/// in hexadecimal, marked as encrypted. A refused public spend key ends the
/// call with `InvalidPublicKey`. A failed derivation ends it with
/// `InvalidKeyMaterial`, and so does an event that does not answer the request
/// that the call waits on.
pub open spec fn next(pending: PendingView, event: EventView) -> StepView {
    match pending {
        PendingView::Validated { private_view_key, pincode } => match event {
            EventView::AddressDerived(address) => match pincode {
                None => StepView::Finish(
                    EncodedView::Text(
                        descriptor(address, hex_lower(private_view_key), false).json_text(),
                    ),
                ),
                Some(pin) => StepView::Continue {
                    pending: PendingView::Derived,
                    request: RequestView::Encrypt {
                        primary_address: address,
                        view_key_hex: hex_lower(private_view_key),
                        pincode: pin,
                    },
                },
            },
            EventView::PublicKeyRejected => failed(ConnectError::InvalidPublicKey),
            EventView::DerivationFailed => failed(ConnectError::InvalidKeyMaterial),
            EventView::Encrypted { .. } => failed(ConnectError::InvalidKeyMaterial),
        },
        PendingView::Derived => match event {
            EventView::Encrypted { primary_address, view_key_hex } => StepView::Finish(
                EncodedView::Text(
                    descriptor(hex_lower(primary_address), hex_lower(view_key_hex), true).json_text(),
                ),
            ),
            _ => failed(ConnectError::InvalidKeyMaterial),
        },
    }
}

fn fail(error: ConnectError) -> (step: Step)
    ensures
        step@ == failed(error),
{
    Step::Finish(UREncodeResult::Error(error))
}

fn validated(
    pub_spend_key: &str,
    private_view_key: [u8; PRIVATE_KEY_LEN],
    pincode: Option<[u8; PINCODE_LEN]>,
) -> (step: Step)
    ensures
        !is_hex_text(pub_spend_key@) ==> step@ == failed(ConnectError::InvalidPublicKey),
        is_hex_text(pub_spend_key@) ==> step@ == (StepView::Continue {
            pending: PendingView::Validated {
                private_view_key: private_view_key@,
                pincode: match pincode {
                    Some(pin) => Some(pin@),
                    None => None,
                },
            },
            request: RequestView::DeriveAddress {
                network: Network::Mainnet,
                address_type: AddressType::Standard,
                pub_spend_key: pub_spend_key@,
                private_view_key: private_view_key@,
            },
        }),
{
    if !is_encoded_key(pub_spend_key) {
        return fail(ConnectError::InvalidPublicKey);
    }
    Step::Continue {
        pending: Pending { stage: Stage::Validated { private_view_key, pincode } },
        request: Request::DeriveAddress {
            network: Network::Mainnet,
            address_type: AddressType::Standard,
            pub_spend_key: pub_spend_key.to_owned(),
            private_view_key,
        },
    }
}

/// Begins the call that produces a descriptor in the clear.
pub fn get_connect_cake_wallet_ur(pub_spend_key: &str, private_view_key: &str) -> (step: Step)
    ensures
        step@ == start(pub_spend_key@, private_view_key@, None),
{
    match parse_private_view_key(private_view_key) {
        Ok(key) => validated(pub_spend_key, key, None),
        Err(error) => fail(error),
    }
}

/// Begins the call that produces a descriptor whose fields are encrypted under
/// a PIN code.
pub fn get_connect_cake_wallet_ur_encrypted(
    pub_spend_key: &str,
    private_view_key: &str,
    pincode: &[u8],
) -> (step: Step)
    ensures
        step@ == start(pub_spend_key@, private_view_key@, Some(pincode@)),
{
    let key = match parse_private_view_key(private_view_key) {
        Ok(key) => key,
        Err(error) => { return fail(error); },
    };
    let pin = match safe_parse_pincode(pincode) {
        Ok(pin) => pin,
        Err(_) => { return fail(ConnectError::InvalidPin); },
    };
    validated(pub_spend_key, key, Some(pin))
}

/// Takes a waiting call one step further on an event from its driver.
pub fn advance(pending: Pending, event: Event) -> (step: Step)
    ensures
        step@ == next(pending@, event@),
{
    match pending.stage {
        Stage::Validated { private_view_key, pincode } => match event {
            Event::AddressDerived(address) => {
                let view_key_text = encode(private_view_key.as_slice());
                match pincode {
                    None => Step::Finish(generate_wallet_result(address, view_key_text, false)),
                    Some(pin) => Step::Continue {
                        pending: Pending { stage: Stage::Derived },
                        request: Request::Encrypt {
                            primary_address: address,
                            view_key_hex: view_key_text,
                            pincode: pin,
                        },
                    },
                }
            },
            Event::PublicKeyRejected => fail(ConnectError::InvalidPublicKey),
            Event::DerivationFailed => fail(ConnectError::InvalidKeyMaterial),
            Event::Encrypted { .. } => fail(ConnectError::InvalidKeyMaterial),
        },
        Stage::Derived => match event {
            Event::Encrypted { primary_address, view_key_hex } => Step::Finish(
                generate_wallet_result(
                    encode(primary_address.as_slice()),
                    encode(view_key_hex.as_slice()),
                    true,
                ),
            ),
            _ => fail(ConnectError::InvalidKeyMaterial),
        },
    }
}

/// A private view key whose bytes are not as many as those of a private key
/// ends the call at once with `InvalidLength`, with a PIN code or without:
/// nothing is derived and nothing is encrypted.
pub proof fn lemma_key_width_is_checked(
    pub_spend_key: Seq<char>,
    private_view_key: Seq<char>,
    pincode: Option<Seq<u8>>,
)
    requires
        is_hex_text(private_view_key),
        hex_bytes(private_view_key).len() != PRIVATE_KEY_LEN,
    ensures
        start(pub_spend_key, private_view_key, pincode) == failed(ConnectError::InvalidLength),
{
}

/// Beside a private view key that passes its checks, a PIN code that is not as
/// wide as a PIN code ends the call at once with `InvalidPin`: nothing is
/// derived and nothing is encrypted.
pub proof fn lemma_pin_width_is_checked(
    pub_spend_key: Seq<char>,
    private_view_key: Seq<char>,
    pincode: Seq<u8>,
)
    requires
        private_view_key_of(private_view_key) is Ok,
        pincode.len() != PINCODE_LEN,
    ensures
        start(pub_spend_key, private_view_key, Some(pincode)) == failed(ConnectError::InvalidPin),
{
}

/// A key that is not written in hexadecimal ends the call at once: the private
/// view key with `InvalidEncoding`; the public spend key, beside a private view
/// key and a PIN code that pass their checks, with `InvalidPublicKey`.
pub proof fn lemma_encodings_are_checked(
    pub_spend_key: Seq<char>,
    private_view_key: Seq<char>,
    pincode: Option<Seq<u8>>,
)
    ensures
        !is_hex_text(private_view_key) ==> start(pub_spend_key, private_view_key, pincode)
            == failed(ConnectError::InvalidEncoding),
        private_view_key_of(private_view_key) is Ok && (pincode is Some ==> pincode->0.len()
            == PINCODE_LEN) && !is_hex_text(pub_spend_key) ==> start(
            pub_spend_key,
            private_view_key,
            pincode,
        ) == failed(ConnectError::InvalidPublicKey),
{
}

/// A call without a PIN code on keys that pass the checks asks for the address
/// and is over once it is there. Its payload is the descriptor, in the clear,
/// of that address and of the private view key as it was given, in lower case:
/// it depends on nothing but the keys and the address.
pub proof fn lemma_plain_call(
    pub_spend_key: Seq<char>,
    private_view_key: Seq<char>,
    address: Seq<char>,
)
    requires
        is_hex_text(pub_spend_key),
        is_hex_text(private_view_key),
        private_view_key.len() == 2 * PRIVATE_KEY_LEN,
    ensures
        start(pub_spend_key, private_view_key, None) matches StepView::Continue { pending, request }
            && request == (RequestView::DeriveAddress {
            network: Network::Mainnet,
            address_type: AddressType::Standard,
            pub_spend_key,
            private_view_key: hex_bytes(private_view_key),
        }) && next(pending, EventView::AddressDerived(address)) == StepView::Finish(
            EncodedView::Text(
                descriptor(
                    address,
                    private_view_key.map_values(|c: char| lower_case(c)),
                    false,
                ).json_text(),
            ),
        ),
{
    lemma_encode_of_decode(private_view_key);
}

/// Whatever the driver reports, a call that began without a PIN code never
/// yields a descriptor marked as encrypted, and a call that began with one
/// never yields a descriptor in the clear.
pub proof fn lemma_encrypted_flag(
    pub_spend_key: Seq<char>,
    private_view_key: Seq<char>,
    pincode: Option<Seq<u8>>,
    first: EventView,
    second: EventView,
)
    ensures
        start(pub_spend_key, private_view_key, pincode) matches StepView::Continue { pending, .. }
            ==> {
            let after = next(pending, first);
            &&& after matches StepView::Finish(EncodedView::Text(text)) ==> {
                &&& pincode is None
                &&& first is AddressDerived
                &&& text == descriptor(
                    first->AddressDerived_0,
                    hex_lower(hex_bytes(private_view_key)),
                    false,
                ).json_text()
            }
            &&& after matches StepView::Continue { pending: sealing, .. } ==> {
                &&& pincode is Some
                &&& next(sealing, second) matches StepView::Finish(EncodedView::Text(text)) ==> {
                    &&& second is Encrypted
                    &&& text == descriptor(
                        hex_lower(second->primary_address),
                        hex_lower(second->view_key_hex),
                        true,
                    ).json_text()
                }
            }
        },
{
}

/// A call with a PIN code hands to the cipher the very two texts that a call
/// without one puts in the descriptor, and puts in the descriptor the two
/// ciphertexts in hexadecimal, from which decoding gives the ciphertexts back.
pub proof fn lemma_sealed_fields(
    private_view_key: Seq<u8>,
    pincode: Seq<u8>,
    address: Seq<char>,
    sealed_address: Seq<u8>,
    sealed_view_key: Seq<u8>,
)
    ensures
        next(
            PendingView::Validated { private_view_key, pincode: None },
            EventView::AddressDerived(address),
        ) == StepView::Finish(
            EncodedView::Text(descriptor(address, hex_lower(private_view_key), false).json_text()),
        ),
        next(
            PendingView::Validated { private_view_key, pincode: Some(pincode) },
            EventView::AddressDerived(address),
        ) == (StepView::Continue {
            pending: PendingView::Derived,
            request: RequestView::Encrypt {
                primary_address: address,
                view_key_hex: hex_lower(private_view_key),
                pincode,
            },
        }),
        next(
            PendingView::Derived,
            EventView::Encrypted { primary_address: sealed_address, view_key_hex: sealed_view_key },
        ) == StepView::Finish(
            EncodedView::Text(
                descriptor(hex_lower(sealed_address), hex_lower(sealed_view_key), true).json_text(),
            ),
        ),
        hex_bytes(hex_lower(sealed_address)) == sealed_address,
        hex_bytes(hex_lower(sealed_view_key)) == sealed_view_key,
{
    lemma_decode_of_encode(sealed_address);
    lemma_decode_of_encode(sealed_view_key);
}

} // verus!
