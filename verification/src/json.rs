//! Option documents.
//!
//! A command's options arrive as a `serde_json::Value`, which the verifier
//! cannot look into. `Json` is the mathematical shape of such a document and
//! `json_of` names the shape of a given value. The four readers at the end of
//! this file are the only code that touches a value; their contracts are
//! taken on trust from `serde_json` and everything else is proved from them.

use vstd::prelude::*;
use serde_json::Value;

verus! {

/// `serde_json::Value`, declared so that it can be named in signatures.
/// Nothing of its inside is visible to the verifier.
#[verifier::external_type_specification]
#[verifier::external_body]
pub struct ExValue(serde_json::Value);

/// The shape of a JSON document. A number's magnitude is not recorded: no
/// option is a number.
pub enum Json {
    Null,
    Bool(bool),
    Number,
    Text(Seq<char>),
    Array(Seq<Json>),
    Object(Map<Seq<char>, Json>),
}

/// The shape of the document that `value` holds. It has no definition: all
/// that is known of it is what the readers below say.
pub uninterp spec fn json_of(value: Value) -> Json;

/// The shapes of the documents in `values`, in order.
pub open spec fn jsons_of(values: Seq<Value>) -> Seq<Json> {
    Seq::new(values.len(), |i: int| json_of(values[i]))
}

impl Json {
    /// The member stored under `key`, if this is an object that has one.
    pub open spec fn member(self, key: Seq<char>) -> Option<Json> {
        match self {
            Json::Object(members) => if members.contains_key(key) {
                Some(members[key])
            } else {
                None
            },
            _ => None,
        }
    }

    /// The characters, if this is a string.
    pub open spec fn text(self) -> Option<Seq<char>> {
        match self {
            Json::Text(chars) => Some(chars),
            _ => None,
        }
    }

    /// The elements, if this is an array.
    pub open spec fn elements(self) -> Option<Seq<Json>> {
        match self {
            Json::Array(elements) => Some(elements),
            _ => None,
        }
    }

    /// The truth value, if this is a boolean.
    pub open spec fn flag(self) -> Option<bool> {
        match self {
            Json::Bool(b) => Some(b),
            _ => None,
        }
    }
}

/// `Value::get` with a string index. Trusted: an object hands out a
/// reference to the member stored under `key`, if it has one; an object
/// without that key, and every value that is not an object, gives `None`.
#[verifier::external_body]
pub(crate) fn get_member<'a>(value: &'a Value, key: &str) -> (found: Option<&'a Value>)
    ensures
        match found {
            Some(member) => json_of(*value).member(key@) == Some(json_of(*member)),
            None => json_of(*value).member(key@) is None,
        },
{
    value.get(key)
}

/// `Value::as_str`. Trusted: a string hands out its characters; every other
/// value gives `None`.
#[verifier::external_body]
pub(crate) fn get_text<'a>(value: &'a Value) -> (found: Option<&'a str>)
    ensures
        match found {
            Some(chars) => json_of(*value).text() == Some(chars@),
            None => json_of(*value).text() is None,
        },
{
    value.as_str()
}

/// `Value::as_array`. Trusted: an array hands out its elements in order;
/// every other value gives `None`.
#[verifier::external_body]
pub(crate) fn get_elements<'a>(value: &'a Value) -> (found: Option<&'a Vec<Value>>)
    ensures
        match found {
            Some(elements) => json_of(*value).elements() == Some(jsons_of(elements@)),
            None => json_of(*value).elements() is None,
        },
{
    value.as_array()
}

/// `Value::as_bool`. Trusted: a boolean hands out its truth value; every
/// other value gives `None`.
#[verifier::external_body]
pub(crate) fn get_flag(value: &Value) -> (found: Option<bool>)
    ensures
        found == json_of(*value).flag(),
{
    value.as_bool()
}

} // verus!
