//! The wallet connection descriptor and its JSON object.

use crate::json::{json_object_text, no_members, object_insert, object_new, object_text};
use crate::json::{JsonScalar, JsonValue};
use vstd::prelude::*;

verus! {

/// The version of the descriptor's schema.
pub const DESCRIPTOR_VERSION: u64 = 0;

/// The block height from which the companion application restores the account.
pub const RESTORE_HEIGHT: u64 = 0;

/// The tag of the device that produces the descriptor.
pub const SOURCE: &'static str = "Keystone";

/// A wallet connection descriptor as a mathematical value.
pub struct DescriptorView {
    pub version: u64,
    pub primary_address: Seq<char>,
    pub private_view_key: Seq<char>,
    pub restore_height: u64,
    pub encrypted: bool,
    pub source: Seq<char>,
}

/// The descriptor with the given two fields and flag, and the fixed metadata.
pub open spec fn descriptor(
    primary_address: Seq<char>,
    private_view_key: Seq<char>,
    encrypted: bool,
) -> DescriptorView {
    DescriptorView {
        version: DESCRIPTOR_VERSION,
        primary_address,
        private_view_key,
        restore_height: RESTORE_HEIGHT,
        encrypted,
        source: SOURCE@,
    }
}

impl DescriptorView {
    /// The members of the JSON object that carries the descriptor.
    pub open spec fn members(self) -> Map<Seq<char>, JsonScalar> {
        no_members().insert("version"@, JsonScalar::Number(self.version)).insert(
            "primaryAddress"@,
            JsonScalar::Text(self.primary_address),
        ).insert("privateViewKey"@, JsonScalar::Text(self.private_view_key)).insert(
            "restoreHeight"@,
            JsonScalar::Number(self.restore_height),
        ).insert("encrypted"@, JsonScalar::Flag(self.encrypted)).insert(
            "source"@,
            JsonScalar::Text(self.source),
        )
    }

    /// The compact JSON text of the descriptor.
    pub open spec fn json_text(self) -> Seq<char> {
        json_object_text(self.members())
    }
}

/// What lets a companion application track an account: its primary address and
/// its private view key, in the clear or sealed, with the fixed metadata.
#[derive(Debug, PartialEq, Eq)]
pub struct WalletConnectionDescriptor {
    version: u64,
    primary_address: String,
    private_view_key: String,
    restore_height: u64,
    encrypted: bool,
    source: String,
}

impl View for WalletConnectionDescriptor {
    type V = DescriptorView;

    closed spec fn view(&self) -> DescriptorView {
        DescriptorView {
            version: self.version,
            primary_address: self.primary_address@,
            private_view_key: self.private_view_key@,
            restore_height: self.restore_height,
            encrypted: self.encrypted,
            source: self.source@,
        }
    }
}

impl DescriptorView {
    /// Tells whether the metadata have their fixed values.
    pub open spec fn has_fixed_metadata(self) -> bool {
        &&& self.version == DESCRIPTOR_VERSION
        &&& self.restore_height == RESTORE_HEIGHT
        &&& self.source == SOURCE@
    }
}

impl WalletConnectionDescriptor {
    #[verifier::type_invariant]
    spec fn well_formed(self) -> bool {
        self@.has_fixed_metadata()
    }

    /// Builds the descriptor from its two fields and its flag.
    pub fn new(primary_address: String, private_view_key: String, encrypted: bool) -> (made: Self)
        ensures
            made@ == descriptor(primary_address@, private_view_key@, encrypted),
    {
        WalletConnectionDescriptor {
            version: DESCRIPTOR_VERSION,
            primary_address,
            private_view_key,
            restore_height: RESTORE_HEIGHT,
            encrypted,
            source: SOURCE.to_owned(),
        }
    }

    /// The version of the schema: always `DESCRIPTOR_VERSION`.
    pub fn version(&self) -> (version: u64)
        ensures
            version == self@.version,
            version == DESCRIPTOR_VERSION,
    {
        proof {
            use_type_invariant(self);
        }
        self.version
    }

    /// The primary address, in the clear or as ciphertext in hexadecimal.
    pub fn primary_address(&self) -> (text: &str)
        ensures
            text@ == self@.primary_address,
    {
        self.primary_address.as_str()
    }

    /// The private view key in hexadecimal, in the clear or as ciphertext.
    pub fn private_view_key(&self) -> (text: &str)
        ensures
            text@ == self@.private_view_key,
    {
        self.private_view_key.as_str()
    }

    /// The height from which to restore: always `RESTORE_HEIGHT`.
    pub fn restore_height(&self) -> (height: u64)
        ensures
            height == self@.restore_height,
            height == RESTORE_HEIGHT,
    {
        proof {
            use_type_invariant(self);
        }
        self.restore_height
    }

    /// Tells whether the two text fields are ciphertext.
    pub fn encrypted(&self) -> (flag: bool)
        ensures
            flag == self@.encrypted,
    {
        self.encrypted
    }

    /// The tag of the producing device: always `SOURCE`.
    pub fn source(&self) -> (tag: &str)
        ensures
            tag@ == self@.source,
            tag@ == SOURCE@,
    {
        proof {
            use_type_invariant(self);
        }
        self.source.as_str()
    }

    /// Serializes the descriptor as a JSON object.
    pub fn to_json(&self) -> (text: String)
        ensures
            text@ == self@.json_text(),
            self@.has_fixed_metadata(),
    {
        proof {
            use_type_invariant(self);
        }
        let mut object = object_new();
        object_insert(&mut object, "version", JsonValue::Number(self.version));
        object_insert(&mut object, "primaryAddress", JsonValue::Text(self.primary_address.as_str()));
        object_insert(&mut object, "privateViewKey", JsonValue::Text(self.private_view_key.as_str()));
        object_insert(&mut object, "restoreHeight", JsonValue::Number(self.restore_height));
        object_insert(&mut object, "encrypted", JsonValue::Flag(self.encrypted));
        object_insert(&mut object, "source", JsonValue::Text(self.source.as_str()));
        object_text(object)
    }
}

/// The JSON object of a descriptor has six members: each field under its own
/// name, and nothing else.
pub proof fn lemma_descriptor_members(record: DescriptorView)
    ensures
        record.members().dom() =~= set![
            "version"@,
            "primaryAddress"@,
            "privateViewKey"@,
            "restoreHeight"@,
            "encrypted"@,
            "source"@,
        ],
        record.members()["version"@] == JsonScalar::Number(record.version),
        record.members()["primaryAddress"@] == JsonScalar::Text(record.primary_address),
        record.members()["privateViewKey"@] == JsonScalar::Text(record.private_view_key),
        record.members()["restoreHeight"@] == JsonScalar::Number(record.restore_height),
        record.members()["encrypted"@] == JsonScalar::Flag(record.encrypted),
        record.members()["source"@] == JsonScalar::Text(record.source),
{
    reveal_strlit("version");
    reveal_strlit("primaryAddress");
    reveal_strlit("privateViewKey");
    reveal_strlit("restoreHeight");
    reveal_strlit("encrypted");
    reveal_strlit("source");
    assert("version"@.len() == 7);
    assert("primaryAddress"@.len() == 14);
    assert("privateViewKey"@.len() == 14);
    assert("restoreHeight"@.len() == 13);
    assert("encrypted"@.len() == 9);
    assert("source"@.len() == 6);
    assert("primaryAddress"@[3] != "privateViewKey"@[3]);
}

} // verus!
