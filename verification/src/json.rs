//! The JSON document model and the trusted boundary to `serde_json`.
//!
//! A `serde_json::Value` is opaque to the verifier. Everything the rest of the
//! crate knows about one is stated here, over the mathematical model [`Json`].

use vstd::prelude::*;

verus! {

/// A JSON document as a mathematical value.
pub enum Json {
    Null,
    Bool(bool),
    /// A number held as an integer.
    Int(int),
    /// Any other number.
    Float,
    Text(Seq<char>),
    Array(Seq<Json>),
    Object(Map<Seq<char>, Json>),
}

impl Json {
    /// The member `key` of an object; `None` for a missing key or a non-object.
    pub open spec fn member(self, key: Seq<char>) -> Option<Json> {
        match self {
            Json::Object(m) => if m.contains_key(key) {
                Some(m[key])
            } else {
                None
            },
            _ => None,
        }
    }

    pub open spec fn as_flag(self) -> Option<bool> {
        match self {
            Json::Bool(b) => Some(b),
            _ => None,
        }
    }

    /// The integer, where it fits in 64 signed bits.
    pub open spec fn as_signed(self) -> Option<i64> {
        match self {
            Json::Int(i) => if i64::MIN <= i <= i64::MAX {
                Some(i as i64)
            } else {
                None
            },
            _ => None,
        }
    }

    /// The integer, where it is not negative and fits in 64 bits.
    pub open spec fn as_unsigned(self) -> Option<u64> {
        match self {
            Json::Int(i) => if 0 <= i <= u64::MAX {
                Some(i as u64)
            } else {
                None
            },
            _ => None,
        }
    }

    pub open spec fn as_text(self) -> Option<Seq<char>> {
        match self {
            Json::Text(s) => Some(s),
            _ => None,
        }
    }

    pub open spec fn as_items(self) -> Option<Seq<Json>> {
        match self {
            Json::Array(items) => Some(items),
            _ => None,
        }
    }
}

#[verifier::external_type_specification]
#[verifier::external_body]
pub struct ExValue(serde_json::Value);

#[verifier::external_type_specification]
#[verifier::external_body]
pub struct ExJsonError(serde_json::Error);

/// The document that a `serde_json::Value` holds.
pub uninterp spec fn json_model(v: serde_json::Value) -> Json;

/// The document that `serde_json` reads from a text, `None` where it rejects the text.
pub uninterp spec fn parsed_json(text: Seq<char>) -> Option<Json>;

/// The models of a vector of values, in order.
pub open spec fn json_models(values: Seq<serde_json::Value>) -> Seq<Json> {
    values.map_values(|v: serde_json::Value| json_model(v))
}

/// `names` lists every key of `members` exactly once.
pub open spec fn lists_keys(names: Seq<String>, members: Map<Seq<char>, Json>) -> bool {
    &&& forall|i: int| 0 <= i < names.len() ==> members.contains_key(#[trigger] names[i]@)
    &&& forall|i: int, j: int|
        0 <= i < j < names.len() ==> #[trigger] names[i]@ != #[trigger] names[j]@
    &&& forall|k: Seq<char>| #[trigger]
        members.contains_key(k) ==> exists|i: int| 0 <= i < names.len() && names[i]@ == k
}

/// `serde_json::from_str` at `serde_json::Value`: the text's document, or the
/// parser's error. Which texts are documents is left to the parser; the
/// contract only names its answer.
#[verifier::external_body]
pub(crate) fn parse_value(text: &str) -> (r: Result<serde_json::Value, serde_json::Error>)
    ensures
        match r {
            Ok(v) => parsed_json(text@) == Some(json_model(v)),
            Err(_) => parsed_json(text@) is None,
        },
{
    serde_json::from_str::<serde_json::Value>(text)
}

/// `Value::as_bool`: the boolean of a `Bool`, nothing for any other value.
pub assume_specification[ serde_json::Value::as_bool ](v: &serde_json::Value) -> (r: Option<bool>)
    ensures
        r == json_model(*v).as_flag(),
;

/// `Value::as_i64`: the integer of a number that is one and fits in an `i64`.
pub assume_specification[ serde_json::Value::as_i64 ](v: &serde_json::Value) -> (r: Option<i64>)
    ensures
        r == json_model(*v).as_signed(),
;

/// `Value::as_u64`: the integer of a number that is one, is not negative and
/// fits in a `u64`.
pub assume_specification[ serde_json::Value::as_u64 ](v: &serde_json::Value) -> (r: Option<u64>)
    ensures
        r == json_model(*v).as_unsigned(),
;

/// `Value::as_str`: the characters of a `String`, nothing for any other value.
pub assume_specification<'a>[ serde_json::Value::as_str ](v: &'a serde_json::Value) -> (r: Option<&'a str>)
    ensures
        match r {
            Some(s) => json_model(*v).as_text() == Some(s@),
            None => json_model(*v).as_text() is None,
        },
;

/// `Value::as_array`: the elements of an `Array`, nothing for any other value.
pub assume_specification<'a>[ serde_json::Value::as_array ](v: &'a serde_json::Value) -> (r: Option<&'a Vec<serde_json::Value>>)
    ensures
        match r {
            Some(items) => json_model(*v).as_items() == Some(json_models(items@)),
            None => json_model(*v).as_items() is None,
        },
;

/// `Value::get` with a string index: the member of an `Object` under that
/// key, nothing for a missing key or any other value.
#[verifier::external_body]
pub(crate) fn get_member<'a>(v: &'a serde_json::Value, key: &str) -> (r: Option<&'a serde_json::Value>)
    ensures
        match r {
            Some(m) => json_model(*v).member(key@) == Some(json_model(*m)),
            None => json_model(*v).member(key@) is None,
        },
{
    v.get(key)
}

/// `Value::as_object` and `Map::keys`: the keys of an `Object`, each once, in
/// the map's own order; nothing for any other value.
#[verifier::external_body]
pub(crate) fn member_names(v: &serde_json::Value) -> (r: Option<Vec<String>>)
    ensures
        match r {
            Some(names) => json_model(*v) is Object && lists_keys(
                names@,
                json_model(*v)->Object_0,
            ),
            None => !(json_model(*v) is Object),
        },
{
    match v.as_object() {
        Some(members) => Some(members.keys().cloned().collect()),
        None => None,
    }
}

/// `Clone::clone` of a `serde_json::Value`: a value that holds the same document.
pub assume_specification[ <serde_json::Value as Clone>::clone ](v: &serde_json::Value) -> (r:
    serde_json::Value)
    ensures
        json_model(r) == json_model(*v),
;

/// The JSON string literal that `serde_json` writes for a text: the text in
/// double quotes, with the escapes JSON asks for.
pub uninterp spec fn quoted_json(text: Seq<char>) -> Seq<char>;

/// The compact JSON text that `serde_json` writes for a value.
pub uninterp spec fn value_text(v: serde_json::Value) -> Seq<char>;

/// `serde_json::to_string` at `str`: the text as a JSON string literal. The
/// serializer writes a string into a buffer in memory and has no other way to
/// fail than a failed write, so the contract says that it succeeds.
#[verifier::external_body]
pub(crate) fn quote_text(text: &str) -> (r: Result<String, serde_json::Error>)
    ensures
        r is Ok,
        r matches Ok(literal) ==> literal@ == quoted_json(text@),
{
    serde_json::to_string::<str>(text)
}

/// `serde_json::to_string` at `serde_json::Value`: the value as compact JSON
/// text. A value holds nothing that the serializer refuses, and the buffer it
/// writes into is in memory, so the contract says that it succeeds.
#[verifier::external_body]
pub(crate) fn print_value(v: &serde_json::Value) -> (r: Result<String, serde_json::Error>)
    ensures
        r is Ok,
        r matches Ok(written) ==> written@ == value_text(*v),
{
    serde_json::to_string::<serde_json::Value>(v)
}

} // verus!
