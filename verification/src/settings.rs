//! Operator settings written by hand as a JSON object of property names and
//! values, for running the operator outside a task.

use crate::json::{json_of, parse_json, Json};
use crate::properties::{OperatorRef, OperatorSettings, PropertyValue};
use vstd::prelude::*;

verus! {

/// The text a settings value gives: text as it is, a number as JSON writes
/// it, a boolean as `true` or `false`; none for any other value.
pub open spec fn config_text(v: Json) -> Option<Seq<char>> {
    match v {
        Json::Text(s) => Some(s@),
        Json::Number(s) => Some(s@),
        Json::Bool(b) => Some(
            if b {
                "true"@
            } else {
                "false"@
            },
        ),
        _ => None,
    }
}

/// The property values that the entries of a settings object give, in
/// order; entries whose value gives no text are skipped.
pub open spec fn config_pairs(entries: Seq<(String, Json)>) -> Seq<(Seq<char>, Seq<char>)>
    decreases entries.len(),
{
    if entries.len() == 0 {
        Seq::empty()
    } else {
        let prev = config_pairs(entries.drop_last());
        match config_text(entries.last().1) {
            Some(t) => prev.push((entries.last().0@, t)),
            None => prev,
        }
    }
}

/// The views of property values.
pub open spec fn value_pairs(values: Seq<PropertyValue>) -> Seq<(Seq<char>, Seq<char>)> {
    values.map_values(|p: PropertyValue| (p.name@, p.value@))
}

fn config_value(v: &Json) -> (r: Option<String>)
    ensures
        match r {
            Some(s) => config_text(*v) == Some(s@),
            None => config_text(*v) is None,
        },
{
    match v {
        Json::Text(s) => Some(s.clone()),
        Json::Number(s) => Some(s.clone()),
        Json::Bool(b) => Some(
            if *b {
                "true".to_string()
            } else {
                "false".to_string()
            },
        ),
        _ => None,
    }
}

/// The property values of the entries of a settings object.
pub fn config_property_values(entries: &Vec<(String, Json)>) -> (r: Vec<PropertyValue>)
    ensures
        value_pairs(r@) == config_pairs(entries@),
{
    let mut out: Vec<PropertyValue> = Vec::new();
    let mut i: usize = 0;
    while i < entries.len()
        invariant
            i <= entries@.len(),
            value_pairs(out@) == config_pairs(entries@.take(i as int)),
        decreases entries@.len() - i,
    {
        assert(entries@.take(i as int + 1).drop_last() =~= entries@.take(i as int));
        assert(entries@.take(i as int + 1).last() == entries@[i as int]);
        let ghost before = value_pairs(out@);
        match config_value(&entries[i].1) {
            Some(v) => {
                out.push(PropertyValue { name: entries[i].0.clone(), value: v });
                assert(value_pairs(out@) =~= before.push((out@.last().name@, out@.last().value@)));
            },
            None => {},
        }
        i = i + 1;
    }
    assert(entries@.take(entries@.len() as int) =~= entries@);
    out
}

/// The operator settings of a settings object, without namespace; none where
/// the text is no JSON object.
pub fn settings_from_config(text: &str) -> (r: Option<OperatorSettings>)
    ensures
        match (r, json_of(text@)) {
            (Some(s), Some(Json::Object(entries))) => s.namespace@.len() == 0 && (
            s.operator_ref matches Some(o) && value_pairs(o.property_values@) == config_pairs(
                entries@,
            )),
            (None, Some(Json::Object(_))) => false,
            (Some(_), _) => false,
            (None, _) => true,
        },
{
    match parse_json(text) {
        Some(Json::Object(entries)) => {
            let property_values = config_property_values(&entries);
            Some(
                OperatorSettings {
                    namespace: String::new(),
                    operator_ref: Some(OperatorRef { property_values }),
                },
            )
        },
        _ => None,
    }
}

} // verus!
