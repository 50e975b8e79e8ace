//! The schema of a tool's arguments, and reading arguments by it.
//!
//! A schema is a JSON object with `type` set to `object`, the properties by
//! name under `properties`, and the names that must be given under
//! `required`.

use crate::json::{
    entry_views, item_views, lemma_entry_views, lemma_item_views, Json, JsonNumber, JsonValue,
};
use vstd::prelude::*;
use vstd::string::StringExecFns;

verus! {

/// A property of the type `kind` with a description.
pub open spec fn property_value(kind: Seq<char>, description: Seq<char>) -> JsonValue {
    JsonValue::Object(
        seq![("type"@, JsonValue::Text(kind)), ("description"@, JsonValue::Text(description))],
    )
}

/// A property with one more attribute.
pub open spec fn property_with(
    kind: Seq<char>,
    description: Seq<char>,
    key: Seq<char>,
    value: JsonValue,
) -> JsonValue {
    JsonValue::Object(
        seq![
            ("type"@, JsonValue::Text(kind)),
            ("description"@, JsonValue::Text(description)),
            (key, value),
        ],
    )
}

/// The texts of `names` as JSON.
pub open spec fn text_values(names: Seq<Seq<char>>) -> Seq<JsonValue> {
    Seq::new(names.len(), |i: int| JsonValue::Text(names[i]))
}

/// The schema with the given properties, of which `required` must be given.
pub open spec fn schema_value(
    properties: Seq<(Seq<char>, JsonValue)>,
    required: Seq<Seq<char>>,
) -> JsonValue {
    JsonValue::Object(
        seq![
            ("type"@, JsonValue::Text("object"@)),
            ("properties"@, JsonValue::Object(properties)),
            ("required"@, JsonValue::Array(text_values(required))),
        ],
    )
}

/// A JSON object with the given entries.
pub fn object(entries: Vec<(String, Json)>) -> (r: Json)
    ensures
        r@ == JsonValue::Object(entry_views(entries@)),
{
    Json::Object(entries)
}

/// A JSON number that is not negative.
pub fn number(n: u64) -> (r: Json)
    ensures
        r@ == JsonValue::PosInt(n),
{
    Json::Number(JsonNumber::PosInt(n))
}

/// A property of the type `kind` with a description.
pub fn property(kind: &str, description: &str) -> (r: Json)
    ensures
        r@ == property_value(kind@, description@),
{
    let mut entries: Vec<(String, Json)> = Vec::new();
    entries.push((String::from_str("type"), Json::text(kind)));
    entries.push((String::from_str("description"), Json::text(description)));
    proof {
        lemma_entry_views(entries@);
        assert(entry_views(entries@) =~= seq![
            ("type"@, JsonValue::Text(kind@)),
            ("description"@, JsonValue::Text(description@)),
        ]);
    }
    Json::Object(entries)
}

/// A property with one more attribute.
pub fn property_and(kind: &str, description: &str, key: &str, value: Json) -> (r: Json)
    ensures
        r@ == property_with(kind@, description@, key@, value@),
{
    let mut entries: Vec<(String, Json)> = Vec::new();
    entries.push((String::from_str("type"), Json::text(kind)));
    entries.push((String::from_str("description"), Json::text(description)));
    entries.push((String::from_str(key), value));
    proof {
        lemma_entry_views(entries@);
        assert(entry_views(entries@) =~= seq![
            ("type"@, JsonValue::Text(kind@)),
            ("description"@, JsonValue::Text(description@)),
            (key@, value@),
        ]);
    }
    Json::Object(entries)
}

/// The schema with the given properties, of which `required` must be given.
pub fn schema(properties: Vec<(String, Json)>, required: Vec<String>) -> (r: Json)
    ensures
        r@ == schema_value(entry_views(properties@), crate::text::string_views(required@)),
{
    let mut names: Vec<Json> = Vec::new();
    let mut i: usize = 0;
    while i < required.len()
        invariant
            i <= required@.len(),
            names@.len() == i,
            forall|j: int| 0 <= j < i ==> (#[trigger] names@[j])@ == JsonValue::Text(required@[j]@),
        decreases required.len() - i,
    {
        names.push(Json::text(required[i].as_str()));
        i = i + 1;
    }
    let ghost props = entry_views(properties@);
    let ghost wanted = text_values(crate::text::string_views(required@));
    proof {
        lemma_item_views(names@);
        assert(item_views(names@) =~= wanted);
    }
    let mut entries: Vec<(String, Json)> = Vec::new();
    entries.push((String::from_str("type"), Json::text("object")));
    entries.push((String::from_str("properties"), Json::Object(properties)));
    entries.push((String::from_str("required"), Json::Array(names)));
    proof {
        lemma_entry_views(entries@);
        assert(entry_views(entries@) =~= seq![
            ("type"@, JsonValue::Text("object"@)),
            ("properties"@, JsonValue::Object(props)),
            ("required"@, JsonValue::Array(wanted)),
        ]);
    }
    Json::Object(entries)
}

/// The text under `key` in `args`, or the error `missing` where `args`
/// holds no text there.
pub open spec fn required_text(args: JsonValue, key: Seq<char>, missing: Seq<char>) -> Result<
    Seq<char>,
    Seq<char>,
> {
    match args.field(key) {
        Some(JsonValue::Text(text)) => Ok(text),
        _ => Err(missing),
    }
}

/// The text under `key` in `args`, where there is one.
pub open spec fn optional_text(args: JsonValue, key: Seq<char>) -> Option<Seq<char>> {
    match args.field(key) {
        Some(JsonValue::Text(text)) => Some(text),
        _ => None,
    }
}

/// The number under `key` in `args`, or `default` where `args` holds no
/// number there that is a non-negative integer.
pub open spec fn number_or(args: JsonValue, key: Seq<char>, default: u64) -> u64 {
    match args.field(key) {
        Some(JsonValue::PosInt(n)) => n,
        _ => default,
    }
}

/// The text under `key` in `args`, or the error `missing`.
pub fn text_arg(args: &Json, key: &str, missing: &str) -> (r: Result<String, String>)
    ensures
        crate::agent::tools::outcome_text(r) == required_text(args@, key@, missing@),
{
    match args.get(key) {
        Some(value) => match value.as_str() {
            Some(text) => Ok(String::from_str(text)),
            None => Err(String::from_str(missing)),
        },
        None => Err(String::from_str(missing)),
    }
}

/// The text under `key` in `args`, where there is one.
pub fn optional_text_arg(args: &Json, key: &str) -> (r: Option<String>)
    ensures
        crate::providers::types::option_text(r) == optional_text(args@, key@),
{
    match args.get(key) {
        Some(value) => match value.as_str() {
            Some(text) => Some(String::from_str(text)),
            None => None,
        },
        None => None,
    }
}

/// The number under `key` in `args`, or `default`.
pub fn number_arg(args: &Json, key: &str, default: u64) -> (r: u64)
    ensures
        r == number_or(args@, key@, default),
{
    match args.get(key) {
        Some(value) => match value.as_u64() {
            Some(n) => n,
            None => default,
        },
        None => default,
    }
}

} // verus!
