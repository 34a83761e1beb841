//! JSON objects, held by `serde_json`.
use vstd::prelude::*;

verus! {

/// A JSON value, as a mathematical value.
pub enum Json {
    /// `null`.
    Null,
    /// `true` or `false`.
    Bool(bool),
    /// A number, by its notation.
    Number(Seq<char>),
    /// A string.
    Text(Seq<char>),
    /// An array.
    List(Seq<Json>),
    /// An object.
    Object(Map<Seq<char>, Json>),
}

/// A value that can be set as a member of a JSON object.
#[derive(Debug)]
pub enum Member {
    /// A boolean.
    Bool(bool),
    /// A string.
    Text(String),
    /// An array of strings.
    Texts(Vec<String>),
}

impl View for Member {
    type V = Json;

    open spec fn view(&self) -> Json {
        match self {
            Member::Bool(b) => Json::Bool(*b),
            Member::Text(s) => Json::Text(s@),
            Member::Texts(v) => Json::List(v.deep_view().map_values(|s: Seq<char>| Json::Text(s))),
        }
    }
}

/// A JSON value as `serde_json` holds it.
#[verifier::external_type_specification]
#[verifier::external_body]
pub struct ExValue(serde_json::Value);

/// Whether a value is a JSON object.
pub uninterp spec fn is_object(v: serde_json::Value) -> bool;

/// The members of a JSON object.
pub uninterp spec fn members(v: serde_json::Value) -> Map<Seq<char>, Json>;

/// No members at all.
pub open spec fn no_members() -> Map<Seq<char>, Json> {
    Map::empty()
}

/// `serde_json::Map::new`, as a value: an object without members.
#[verifier::external_body]
pub(crate) fn empty_object() -> (r: serde_json::Value)
    ensures
        is_object(r),
        members(r) == no_members(),
{
    serde_json::Value::Object(serde_json::Map::new())
}

/// `serde_json::Map::insert` on the map that `Value::as_object_mut` gives: in an object the
/// member `key` is set, over an earlier one of that name, and no other member changes; a value
/// that is no object stays as it is.
#[verifier::external_body]
pub(crate) fn set_member(v: &mut serde_json::Value, key: &str, value: Member)
    ensures
        is_object(*final(v)) == is_object(*old(v)),
        is_object(*old(v)) ==> members(*final(v)) == members(*old(v)).insert(key@, value@),
        !is_object(*old(v)) ==> *final(v) == *old(v),
{
    let json = match value {
        Member::Bool(b) => serde_json::Value::Bool(b),
        Member::Text(s) => serde_json::Value::String(s),
        Member::Texts(t) => serde_json::Value::from(t),
    };
    if let Some(object) = v.as_object_mut() {
        object.insert(key.to_string(), json);
    }
}

/// A copy of a JSON value is an object when the value is one, with the same members.
pub assume_specification [<serde_json::Value as Clone>::clone](v: &serde_json::Value) -> (r: serde_json::Value)
    ensures
        is_object(r) == is_object(*v),
        members(r) == members(*v),
;

} // verus!
