//! JSON values of `serde_json`, and the mathematical values that contracts speak of.

use crate::text::decimal;
use serde_json::Value;
use vstd::prelude::*;

verus! {

/// What a JSON value says.
///
/// A number is held as the text that it is printed as. An object is a map from names to
/// values: a JSON object gives no meaning to the order of its members.
pub enum Json {
    Null,
    Bool(bool),
    Number(Seq<char>),
    String(Seq<char>),
    Array(Seq<Json>),
    Object(Map<Seq<char>, Json>),
}

/// The members of an object without members.
pub open spec fn no_members() -> Map<Seq<char>, Json> {
    Map::empty()
}

impl Json {
    /// The members of an object; any other value has none.
    pub open spec fn members(self) -> Map<Seq<char>, Json> {
        match self {
            Json::Object(members) => members,
            _ => no_members(),
        }
    }

    /// The member `key` is there, and is the string `text`.
    pub open spec fn has_string(self, key: Seq<char>, text: Seq<char>) -> bool {
        self.members().dom().contains(key) && self.members()[key] == Json::String(text)
    }

    /// The text of the member `key`, if it is there and is a string.
    pub open spec fn string_member(self, key: Seq<char>) -> Option<Seq<char>> {
        if self.members().dom().contains(key) && self.members()[key] is String {
            Some(self.members()[key]->String_0)
        } else {
            None
        }
    }

    /// The value is one that a member can be stored in: an object, or `null`.
    pub open spec fn takes_members(self) -> bool {
        self is Object || self is Null
    }

    /// The object with the member `key` set to `value`; `null` counts as an object without
    /// members.
    pub open spec fn with_member(self, key: Seq<char>, value: Json) -> Json {
        Json::Object(self.members().insert(key, value))
    }
}

/// `serde_json::Value`: a JSON value.
#[verifier::external_type_specification]
#[verifier::external_body]
pub struct ExValue(serde_json::Value);

/// `serde_json::Map`: the members of a JSON object.
#[verifier::external_type_specification]
#[verifier::external_body]
#[verifier::reject_recursive_types(K)]
#[verifier::reject_recursive_types(V)]
pub struct ExMap<K, V>(serde_json::Map<K, V>);

/// `serde_json::Error`: says why a document could not be read.
#[verifier::external_type_specification]
#[verifier::external_body]
pub struct ExError(serde_json::Error);

/// What the tree of values in a `serde_json::Value` holds.
pub uninterp spec fn json_value(value: serde_json::Value) -> Json;

/// What the members in a `serde_json::Map` hold, by their names.
pub uninterp spec fn json_members(members: serde_json::Map<String, Value>) -> Map<Seq<char>, Json>;

/// The value that `serde_json::from_slice` reads from a document; `None` if it reads none.
pub uninterp spec fn json_parse(document: Seq<u8>) -> Option<Json>;

/// The compact text that a `serde_json::Value` is displayed as.
pub uninterp spec fn json_text(value: Json) -> Seq<char>;

/// `serde_json::Map::new`: a map without members.
pub assume_specification[ serde_json::Map::<String, Value>::new ]() -> (members: serde_json::Map<
    String,
    Value,
>)
    ensures
        json_members(members) == no_members(),
;

/// `serde_json::Map::insert` sets the member `k` to `v`, leaves every other member as it was,
/// and hands back the value that `k` had before, if it had one.
pub assume_specification[ serde_json::Map::<String, Value>::insert ](
    members: &mut serde_json::Map<String, Value>,
    k: String,
    v: Value,
) -> (previous: Option<Value>)
    ensures
        json_members(*final(members)) == json_members(*old(members)).insert(k@, json_value(v)),
        previous is Some <==> json_members(*old(members)).dom().contains(k@),
        previous matches Some(p) ==> json_value(p) == json_members(*old(members))[k@],
;

/// `serde_json::Value::String`: a JSON string with the text `s`.
#[verifier::external_body]
pub(crate) fn string_value(s: String) -> (value: Value)
    ensures
        json_value(value) == Json::String(s@),
{
    Value::String(s)
}

/// `serde_json::Value::from`, on a `u16`: a JSON number, which is printed in decimal notation.
#[verifier::external_body]
pub(crate) fn number_value(n: u16) -> (value: Value)
    ensures
        json_value(value) == Json::Number(decimal(n as nat)),
{
    Value::from(n)
}

/// `serde_json::Value::Object`: a JSON object with these members.
#[verifier::external_body]
pub(crate) fn object_value(members: serde_json::Map<String, Value>) -> (value: Value)
    ensures
        json_value(value) == Json::Object(json_members(members)),
{
    Value::Object(members)
}

/// `serde_json::Value`'s `IndexMut`, on a string: `value[key] = member` sets one member of an
/// object. On `null` it first makes an object without members; on any other value it panics.
#[verifier::external_body]
pub(crate) fn set_member(value: &mut Value, key: &str, member: Value)
    requires
        json_value(*old(value)).takes_members(),
    ensures
        json_value(*final(value)) == json_value(*old(value)).with_member(key@, json_value(member)),
{
    value[key] = member;
}

/// `serde_json::from_slice`, into a `serde_json::Value`. Which documents it reads, and as what,
/// is left to the name `json_parse`; an empty document is not one of them.
#[verifier::external_body]
pub(crate) fn parse_json(document: &[u8]) -> (parsed: Result<Value, serde_json::Error>)
    ensures
        match parsed {
            Ok(value) => json_parse(document@) == Some(json_value(value)),
            Err(_) => json_parse(document@) is None,
        },
        document@.len() == 0 ==> parsed is Err,
{
    serde_json::from_slice::<Value>(document)
}

/// `serde_json::Value`'s `Display`: compact JSON, in which every control character below the
/// space stands as an escape sequence. Members come in the order of their names, so the text
/// depends on what the value says alone.
#[verifier::external_body]
pub(crate) fn display_json(value: &Value) -> (text: String)
    ensures
        text@ == json_text(json_value(*value)),
        forall|i: int| 0 <= i < text@.len() ==> #[trigger] text@[i] >= ' ',
{
    format!("{value}")
}

/// Setting a member of an object sets that member and no other; `null` becomes an object with
/// that member alone.
pub proof fn law_member_is_set(
    members: Map<Seq<char>, Json>,
    key: Seq<char>,
    value: Json,
    other: Seq<char>,
)
    requires
        other != key,
    ensures
        Json::Object(members).takes_members(),
        Json::Null.takes_members(),
        Json::Object(members).with_member(key, value) matches Json::Object(after) && {
            &&& after.dom().contains(key) && after[key] == value
            &&& after.dom().contains(other) <==> members.dom().contains(other)
            &&& members.dom().contains(other) ==> after[other] == members[other]
        },
        Json::Null.with_member(key, value) matches Json::Object(after) && {
            &&& after.dom().contains(key) && after[key] == value
            &&& !after.dom().contains(other)
        },
{
}

/// The members of an object are read as they are.
pub proof fn law_members_are_read(
    members: Map<Seq<char>, Json>,
    key: Seq<char>,
    text: Seq<char>,
)
    ensures
        Json::Object(members).members() == members,
        Json::Object(members).has_string(key, text) <==> members.dom().contains(key)
            && members[key] == Json::String(text),
        Json::Object(members).string_member(key) == Some(text) <==> members.dom().contains(key)
            && members[key] == Json::String(text),
        Json::Object(members).string_member(key) is Some ==> members.dom().contains(key),
{
}

} // verus!
