//! JSON values, held by `serde_json` and seen here as trees.
use vstd::prelude::*;

verus! {

/// A JSON value as a tree. A number is told apart by its text.
pub enum JsonTree {
    Null,
    Bool(bool),
    Number(Seq<char>),
    Text(Seq<char>),
    Array(Seq<JsonTree>),
    Object(Map<Seq<char>, JsonTree>),
}

impl JsonTree {
    /// The member called `key`; only an object has members.
    pub open spec fn member(self, key: Seq<char>) -> Option<JsonTree> {
        match self {
            JsonTree::Object(members) => if members.contains_key(key) {
                Some(members[key])
            } else {
                None
            },
            _ => None,
        }
    }

    /// The string, where the value is one.
    pub open spec fn as_text(self) -> Option<Seq<char>> {
        match self {
            JsonTree::Text(text) => Some(text),
            _ => None,
        }
    }

    /// The object without members.
    pub open spec fn empty_object() -> JsonTree {
        JsonTree::Object(Map::empty())
    }
}

/// The JSON value type of `serde_json`.
#[verifier::external_type_specification]
#[verifier::external_body]
pub struct ExValue(serde_json::Value);

/// What a `serde_json::Value` holds.
pub uninterp spec fn json_tree(value: serde_json::Value) -> JsonTree;

/// Calls `serde_json::Value::get` with a string index: the member of that
/// name where the value is an object that has one, and nothing otherwise.
#[verifier::external_body]
pub(crate) fn json_get<'a>(value: &'a serde_json::Value, key: &str) -> (member: Option<
    &'a serde_json::Value,
>)
    ensures
        match member {
            Some(m) => json_tree(*value).member(key@) == Some(json_tree(*m)),
            None => json_tree(*value).member(key@) is None,
        },
{
    value.get(key)
}

/// Calls `serde_json::Value::as_str`: the string where the value is one, and
/// nothing otherwise.
#[verifier::external_body]
pub(crate) fn json_as_str(value: &serde_json::Value) -> (text: Option<&str>)
    ensures
        match text {
            Some(t) => json_tree(*value).as_text() == Some(t@),
            None => json_tree(*value).as_text() is None,
        },
{
    value.as_str()
}

/// Calls `serde_json::Value::clone`: the copy holds the same JSON value.
#[verifier::external_body]
pub(crate) fn json_clone(value: &serde_json::Value) -> (copy: serde_json::Value)
    ensures
        json_tree(copy) == json_tree(*value),
{
    value.clone()
}

/// Calls `serde_json::Map::new` and wraps the map as `Value::Object`: an
/// object without members.
#[verifier::external_body]
pub(crate) fn json_empty_object() -> (object: serde_json::Value)
    ensures
        json_tree(object) == JsonTree::empty_object(),
{
    serde_json::Value::Object(serde_json::Map::new())
}

} // verus!
