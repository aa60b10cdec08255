//! JSON values as the library reads them: a JSON text is parsed by
//! `serde_json` and handed over as a plain tree.

use crate::text::str_eq;
use vstd::prelude::*;

verus! {

/// A JSON value.
#[derive(Debug)]
pub enum Json {
    Null,
    Bool(bool),
    /// A number, as `serde_json` writes it.
    Number(String),
    Text(String),
    Array(Vec<Json>),
    /// The entries of an object, in the order `serde_json` keeps them; each
    /// key occurs once.
    Object(Vec<(String, Json)>),
}

#[verifier::external_type_specification]
#[verifier::external_body]
pub struct ExJsonValue(serde_json::Value);

/// What `serde_json` parses a text into, if it is JSON.
pub uninterp spec fn json_of(text: Seq<char>) -> Option<Json>;

/// Turns a `serde_json::Value` into the library's tree, one node for one
/// node: a number becomes the text `serde_json` writes for it, an object its
/// entries in its map's order.
#[verifier::external_body]
fn json_from_value(v: serde_json::Value) -> Json {
    match v {
        serde_json::Value::Null => Json::Null,
        serde_json::Value::Bool(b) => Json::Bool(b),
        serde_json::Value::Number(n) => Json::Number(n.to_string()),
        serde_json::Value::String(s) => Json::Text(s),
        serde_json::Value::Array(a) => Json::Array(a.into_iter().map(json_from_value).collect()),
        serde_json::Value::Object(m) => Json::Object(m.into_iter().map(|(k, v)| (k, json_from_value(v))).collect()),
    }
}

/// Calls `serde_json::from_str` for a `serde_json::Value`: `None` where the
/// text is not JSON. The result is named `json_of` of the text.
#[verifier::external_body]
pub(crate) fn parse_json(text: &str) -> (r: Option<Json>)
    ensures
        r == json_of(text@),
{
    serde_json::from_str::<serde_json::Value>(text).ok().map(json_from_value)
}

/// The value of the first entry with the given key.
pub open spec fn entry_value(entries: Seq<(String, Json)>, key: Seq<char>) -> Option<Json>
    decreases entries.len(),
{
    if entries.len() == 0 {
        None
    } else if entries[0].0@ == key {
        Some(entries[0].1)
    } else {
        entry_value(entries.drop_first(), key)
    }
}

/// The value of a field of an object; none for a missing field or a value
/// that is no object (where indexing a `serde_json::Value` gives `null`).
pub open spec fn field_of(v: Json, key: Seq<char>) -> Option<Json> {
    match v {
        Json::Object(entries) => entry_value(entries@, key),
        _ => None,
    }
}

/// The text of a field, where it is text.
pub open spec fn text_field_of(v: Json, key: Seq<char>) -> Option<Seq<char>> {
    match field_of(v, key) {
        Some(Json::Text(s)) => Some(s@),
        _ => None,
    }
}

/// The value of a field of an object.
pub fn field<'a>(v: &'a Json, key: &str) -> (r: Option<&'a Json>)
    ensures
        match r {
            Some(x) => field_of(*v, key@) == Some(*x),
            None => field_of(*v, key@) is None,
        },
{
    match v {
        Json::Object(entries) => {
            let mut i: usize = 0;
            assert(entries@.skip(0) =~= entries@);
            while i < entries.len()
                invariant
                    i <= entries@.len(),
                    field_of(*v, key@) == entry_value(entries@, key@),
                    entry_value(entries@, key@) == entry_value(entries@.skip(i as int), key@),
                decreases entries@.len() - i,
            {
                assert(entries@.skip(i as int).drop_first() =~= entries@.skip(i as int + 1));
                assert(entries@.skip(i as int)[0] == entries@[i as int]);
                if str_eq(entries[i].0.as_str(), key) {
                    assert(entry_value(entries@.skip(i as int), key@) == Some(entries@[i as int].1));
                    return Some(&entries[i].1);
                }
                i = i + 1;
            }
            None
        },
        _ => None,
    }
}

/// The text of a field, where it is text.
pub fn text_field(v: &Json, key: &str) -> (r: Option<String>)
    ensures
        match r {
            Some(s) => text_field_of(*v, key@) == Some(s@),
            None => text_field_of(*v, key@) is None,
        },
{
    match field(v, key) {
        Some(Json::Text(s)) => Some(s.clone()),
        _ => None,
    }
}

} // verus!
