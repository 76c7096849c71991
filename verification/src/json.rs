//! JSON objects of numbers, texts and flags, built and written by `serde_json`.

use vstd::prelude::*;

verus! {

/// `serde_json::Value`, any JSON value. It is carried through and never looked
/// into.
#[verifier::external_type_specification]
#[verifier::external_body]
pub struct ExJsonValue(serde_json::Value);

/// `serde_json::Map`, a JSON object: a collection of values by name. What one
/// holds is spoken of through `object_members`.
#[verifier::external_type_specification]
#[verifier::external_body]
#[verifier::reject_recursive_types(K)]
#[verifier::reject_recursive_types(V)]
pub struct ExJsonObject<K, V>(serde_json::Map<K, V>);

/// What a member of a JSON object holds, as a mathematical value.
pub enum JsonScalar {
    Number(u64),
    Text(Seq<char>),
    Flag(bool),
}

/// A value to be stored as a member of a JSON object.
#[derive(Clone, Copy, Debug)]
pub enum JsonValue<'a> {
    Number(u64),
    Text(&'a str),
    Flag(bool),
}

impl<'a> View for JsonValue<'a> {
    type V = JsonScalar;

    open spec fn view(&self) -> JsonScalar {
        match *self {
            JsonValue::Number(n) => JsonScalar::Number(n),
            JsonValue::Text(s) => JsonScalar::Text(s@),
            JsonValue::Flag(b) => JsonScalar::Flag(b),
        }
    }
}

/// The members of a JSON object of numbers, texts and flags: each name with
/// what it holds.
pub uninterp spec fn object_members(
    object: serde_json::Map<String, serde_json::Value>,
) -> Map<Seq<char>, JsonScalar>;

/// The members of an object that holds nothing.
pub open spec fn no_members() -> Map<Seq<char>, JsonScalar> {
    Map::empty()
}

/// The compact JSON text that `serde_json` writes for the object with the given
/// members.
pub uninterp spec fn json_object_text(members: Map<Seq<char>, JsonScalar>) -> Seq<char>;

/// `serde_json::Map::new`: an object without members.
#[verifier::external_body]
pub(crate) fn object_new() -> (made: serde_json::Map<String, serde_json::Value>)
    ensures
        object_members(made) == no_members(),
{
    serde_json::Map::new()
}

/// `serde_json::Map::insert`, on the `serde_json::Value` that `Value::from`
/// makes of the number, the text or the flag: the object then holds `value`
/// under `name`, in place of what it held under that name before, and its other
/// members as they were.
#[verifier::external_body]
pub(crate) fn object_insert(
    object: &mut serde_json::Map<String, serde_json::Value>,
    name: &str,
    value: JsonValue,
)
    ensures
        object_members(*final(object)) == object_members(*old(object)).insert(name@, value@),
{
    let member = match value {
        JsonValue::Number(n) => serde_json::Value::from(n),
        JsonValue::Text(s) => serde_json::Value::from(s),
        JsonValue::Flag(b) => serde_json::Value::from(b),
    };
    object.insert(name.to_owned(), member);
}

/// `to_string` of `serde_json::Value`, on the value that is the given object:
/// its compact JSON text. The object keeps its members by name, not in the
/// order in which they came, so the text depends on the members alone.
#[verifier::external_body]
pub(crate) fn object_text(object: serde_json::Map<String, serde_json::Value>) -> (text: String)
    ensures
        text@ == json_object_text(object_members(object)),
{
    serde_json::Value::Object(object).to_string()
}

} // verus!
