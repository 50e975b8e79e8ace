//! JSON values as plain data.
//!
//! Reading and writing JSON text is the work of `serde_json`; everything the
//! library decides about a value it decides on [`Json`], which holds the
//! value's parts as ordinary fields.

use crate::text::same_text;
use vstd::prelude::*;

verus! {

/// `serde_json::Value`: a JSON value as `serde_json` keeps it. The library
/// carries it from one call into `serde_json` to the next and never looks
/// inside.
#[verifier::external_type_specification]
#[verifier::external_body]
pub struct ExValue(serde_json::Value);

/// A JSON number: a non-negative integer, a negative integer, or any other
/// number, kept as its decimal text.
#[derive(Debug, PartialEq)]
pub enum JsonNumber {
    PosInt(u64),
    NegInt(i64),
    Decimal(String),
}

/// A JSON value. In an object a later entry overrides an earlier one with the
/// same key.
#[derive(Debug, PartialEq)]
pub enum Json {
    Null,
    Bool(bool),
    Number(JsonNumber),
    Text(String),
    Array(Vec<Json>),
    Object(Vec<(String, Json)>),
}

/// What a [`Json`] holds, as mathematical data.
pub enum JsonValue {
    Null,
    Bool(bool),
    PosInt(u64),
    NegInt(i64),
    Decimal(Seq<char>),
    Text(Seq<char>),
    Array(Seq<JsonValue>),
    Object(Seq<(Seq<char>, JsonValue)>),
}

impl View for Json {
    type V = JsonValue;

    open spec fn view(&self) -> JsonValue
        decreases self,
    {
        match self {
            Json::Null => JsonValue::Null,
            Json::Bool(b) => JsonValue::Bool(*b),
            Json::Number(JsonNumber::PosInt(u)) => JsonValue::PosInt(*u),
            Json::Number(JsonNumber::NegInt(i)) => JsonValue::NegInt(*i),
            Json::Number(JsonNumber::Decimal(s)) => JsonValue::Decimal(s@),
            Json::Text(s) => JsonValue::Text(s@),
            Json::Array(items) => JsonValue::Array(item_views(items@)),
            Json::Object(entries) => JsonValue::Object(entry_views(entries@)),
        }
    }
}

/// The views of the elements of an array.
pub open spec fn item_views(items: Seq<Json>) -> Seq<JsonValue>
    decreases items,
{
    if items.len() == 0 {
        Seq::empty()
    } else {
        item_views(items.drop_last()).push(items.last()@)
    }
}

/// The views of the entries of an object.
pub open spec fn entry_views(entries: Seq<(String, Json)>) -> Seq<(Seq<char>, JsonValue)>
    decreases entries,
{
    if entries.len() == 0 {
        Seq::empty()
    } else {
        entry_views(entries.drop_last()).push((entries.last().0@, entries.last().1@))
    }
}

/// The view of an array holds the view of each element, in order.
pub proof fn lemma_item_views(items: Seq<Json>)
    ensures
        item_views(items).len() == items.len(),
        forall|i: int| 0 <= i < items.len() ==> (#[trigger] item_views(items)[i]) == items[i]@,
    decreases items.len(),
{
    reveal_with_fuel(item_views, 2);
    if items.len() > 0 {
        assert(item_views(items) == item_views(items.drop_last()).push(items.last()@));
        lemma_item_views(items.drop_last());
    } else {
        assert(item_views(items) == Seq::<JsonValue>::empty());
    }
}

/// The view of an object holds the view of each entry, in order.
pub proof fn lemma_entry_views(entries: Seq<(String, Json)>)
    ensures
        entry_views(entries).len() == entries.len(),
        forall|i: int|
            0 <= i < entries.len() ==> (#[trigger] entry_views(entries)[i]) == (
                entries[i].0@,
                entries[i].1@,
            ),
    decreases entries.len(),
{
    reveal_with_fuel(entry_views, 2);
    if entries.len() > 0 {
        assert(entry_views(entries) == entry_views(entries.drop_last()).push(
            (entries.last().0@, entries.last().1@),
        ));
        lemma_entry_views(entries.drop_last());
    } else {
        assert(entry_views(entries) == Seq::<(Seq<char>, JsonValue)>::empty());
    }
}

/// The value that the JSON text `text` denotes, if it is well-formed JSON.
pub uninterp spec fn parsed(text: Seq<char>) -> Option<JsonValue>;

/// What a `serde_json::Value` holds.
pub uninterp spec fn held(value: serde_json::Value) -> JsonValue;

/// A value as `serde_json` keeps it: of the entries of an object with the
/// same key one is left, and a number is kept as `serde_json` reads it.
pub uninterp spec fn kept(value: JsonValue) -> JsonValue;

/// The indented JSON text of what a `serde_json::Value` holds.
pub uninterp spec fn indented(value: JsonValue) -> Seq<char>;

/// The indented JSON text of a value.
pub open spec fn pretty(value: JsonValue) -> Seq<char> {
    indented(kept(value))
}

/// The value of the last entry of `entries` whose key is `key`.
pub open spec fn lookup(entries: Seq<(Seq<char>, JsonValue)>, key: Seq<char>) -> Option<JsonValue>
    decreases entries.len(),
{
    if entries.len() == 0 {
        None
    } else if entries.last().0 == key {
        Some(entries.last().1)
    } else {
        lookup(entries.drop_last(), key)
    }
}

impl JsonValue {
    /// The value under `key`, where this is an object that has the key.
    pub open spec fn field(self, key: Seq<char>) -> Option<JsonValue> {
        match self {
            JsonValue::Object(entries) => lookup(entries, key),
            _ => None,
        }
    }

    /// The characters of a text value.
    pub open spec fn as_text(self) -> Option<Seq<char>> {
        match self {
            JsonValue::Text(s) => Some(s),
            _ => None,
        }
    }

    /// The element at `index`, where this is an array that long.
    pub open spec fn element(self, index: int) -> Option<JsonValue> {
        match self {
            JsonValue::Array(items) => if 0 <= index < items.len() {
                Some(items[index])
            } else {
                None
            },
            _ => None,
        }
    }

    /// The number, where this is a non-negative integer.
    pub open spec fn as_nat(self) -> Option<u64> {
        match self {
            JsonValue::PosInt(u) => Some(u),
            _ => None,
        }
    }
}

/// Moves the parts of a `serde_json::Value` into a [`Json`], variant by
/// variant: the result holds what the value holds. Of a
/// `serde_json::Number`, `as_u64` answers for a non-negative integer,
/// `as_i64` for a negative one, and `to_string` gives the text of any other
/// number.
#[verifier::external_body]
fn from_value(v: serde_json::Value) -> (r: Json)
    ensures
        r@ == held(v),
{
    match v {
        serde_json::Value::Null => Json::Null,
        serde_json::Value::Bool(b) => Json::Bool(b),
        serde_json::Value::Number(n) => Json::Number(match (n.as_u64(), n.as_i64()) {
            (Some(u), _) => JsonNumber::PosInt(u),
            (None, Some(i)) => JsonNumber::NegInt(i),
            (None, None) => JsonNumber::Decimal(n.to_string()),
        }),
        serde_json::Value::String(s) => Json::Text(s),
        serde_json::Value::Array(a) => Json::Array(a.into_iter().map(from_value).collect()),
        serde_json::Value::Object(o) => {
            Json::Object(o.into_iter().map(|(k, x)| (k, from_value(x))).collect())
        },
    }
}

/// Builds the `serde_json::Value` that a [`Json`] stands for, variant by
/// variant: the result holds the value as `serde_json` keeps it. A number
/// goes in by `Value::from`, or by `serde_json::from_str` on its text; the
/// entries of an object are collected into a `serde_json::Map`.
#[verifier::external_body]
fn to_value(j: &Json) -> (r: serde_json::Value)
    ensures
        held(r) == kept(j@),
{
    match j {
        Json::Null => serde_json::Value::Null,
        Json::Bool(b) => serde_json::Value::Bool(*b),
        Json::Number(JsonNumber::PosInt(u)) => serde_json::Value::from(*u),
        Json::Number(JsonNumber::NegInt(i)) => serde_json::Value::from(*i),
        Json::Number(JsonNumber::Decimal(s)) => serde_json::from_str(s).unwrap_or_default(),
        Json::Text(s) => serde_json::Value::String(s.clone()),
        Json::Array(a) => serde_json::Value::Array(a.iter().map(to_value).collect()),
        Json::Object(o) => serde_json::Value::Object(
            o.iter().map(|(k, x)| (k.clone(), to_value(x))).collect(),
        ),
    }
}

/// `serde_json::from_str` at type `serde_json::Value`: the value of a JSON
/// text, or `None` where the text is not well-formed JSON. The result
/// depends on the text alone.
#[verifier::external_body]
fn read_value(text: &str) -> (r: Option<serde_json::Value>)
    ensures
        match r {
            Some(v) => parsed(text@) == Some(held(v)),
            None => parsed(text@) is None,
        },
{
    serde_json::from_str::<serde_json::Value>(text).ok()
}

/// `serde_json::to_string_pretty`: the indented text of a value. The result
/// depends on what the value holds alone.
#[verifier::external_body]
fn write_pretty(value: &serde_json::Value) -> (s: String)
    ensures
        s@ == indented(held(*value)),
{
    serde_json::to_string_pretty(value).unwrap_or_default()
}

/// The value of a JSON text, or `None` where the text is not well-formed
/// JSON.
pub fn parse(text: &str) -> (r: Option<Json>)
    ensures
        match r {
            Some(j) => parsed(text@) == Some(j@),
            None => parsed(text@) is None,
        },
{
    match read_value(text) {
        Some(value) => Some(from_value(value)),
        None => None,
    }
}

/// The indented JSON text of a value.
pub fn render_pretty(value: &Json) -> (s: String)
    ensures
        s@ == pretty(value@),
{
    let stored = to_value(value);
    write_pretty(&stored)
}

impl Json {
    /// A text value.
    pub fn text(s: &str) -> (r: Json)
        ensures
            r@ == JsonValue::Text(s@),
    {
        Json::Text(s.to_owned())
    }

    /// The value under `key`, where this is an object that has the key.
    pub fn get(&self, key: &str) -> (r: Option<&Json>)
        ensures
            match r {
                Some(v) => self@.field(key@) == Some(v@),
                None => self@.field(key@) is None,
            },
    {
        match self {
            Json::Object(entries) => {
                let ghost model = self@->Object_0;
                let mut i: usize = entries.len();
                proof {
                    lemma_entry_views(entries@);
                    assert(model.subrange(0, i as int) == model);
                }
                while i > 0
                    invariant
                        i <= entries.len(),
                        model.len() == entries@.len(),
                        forall|j: int|
                            0 <= j < entries@.len() ==> #[trigger] model[j] == (
                                entries@[j].0@,
                                entries@[j].1@,
                            ),
                        self@.field(key@) == lookup(model.subrange(0, i as int), key@),
                    decreases i,
                {
                    i = i - 1;
                    proof {
                        let head = model.subrange(0, i + 1);
                        assert(head.last() == model[i as int]);
                        assert(head.drop_last() == model.subrange(0, i as int));
                    }
                    if same_text(entries[i].0.as_str(), key) {
                        return Some(&entries[i].1);
                    }
                }
                None
            },
            _ => None,
        }
    }

    /// The characters of a text value.
    pub fn as_str(&self) -> (r: Option<&str>)
        ensures
            match r {
                Some(s) => self@.as_text() == Some(s@),
                None => self@.as_text() is None,
            },
    {
        match self {
            Json::Text(s) => Some(s.as_str()),
            _ => None,
        }
    }

    /// The number, where this is a non-negative integer.
    pub fn as_u64(&self) -> (r: Option<u64>)
        ensures
            r == self@.as_nat(),
    {
        match self {
            Json::Number(JsonNumber::PosInt(u)) => Some(*u),
            _ => None,
        }
    }

    /// The element at `index`, where this is an array that long.
    pub fn at(&self, index: usize) -> (r: Option<&Json>)
        ensures
            match r {
                Some(v) => self@.element(index as int) == Some(v@),
                None => self@.element(index as int) is None,
            },
    {
        match self {
            Json::Array(items) => {
                proof {
                    lemma_item_views(items@);
                }
                if index < items.len() {
                    Some(&items[index])
                } else {
                    None
                }
            },
            _ => None,
        }
    }

    /// A copy of the value.
    pub fn copy(&self) -> (r: Json)
        ensures
            r@ == self@,
        decreases self,
    {
        match self {
            Json::Null => Json::Null,
            Json::Bool(b) => Json::Bool(*b),
            Json::Number(JsonNumber::PosInt(u)) => Json::Number(JsonNumber::PosInt(*u)),
            Json::Number(JsonNumber::NegInt(i)) => Json::Number(JsonNumber::NegInt(*i)),
            Json::Number(JsonNumber::Decimal(s)) => Json::Number(JsonNumber::Decimal(s.clone())),
            Json::Text(s) => Json::Text(s.clone()),
            Json::Array(items) => Json::Array(copy_items(items)),
            Json::Object(entries) => Json::Object(copy_entries(entries)),
        }
    }
}

fn copy_items(items: &Vec<Json>) -> (out: Vec<Json>)
    ensures
        item_views(out@) == item_views(items@),
    decreases items,
{
    let mut out: Vec<Json> = Vec::new();
    let mut i: usize = 0;
    while i < items.len()
        invariant
            i <= items.len(),
            out@.len() == i,
            forall|j: int| 0 <= j < i ==> (#[trigger] out@[j])@ == items@[j]@,
        decreases items.len() - i,
    {
        assert(decreases_to!(items => items[i as int]));
        out.push(items[i].copy());
        i = i + 1;
    }
    proof {
        lemma_item_views(out@);
        lemma_item_views(items@);
        assert(item_views(out@) =~= item_views(items@));
    }
    out
}

fn copy_entries(entries: &Vec<(String, Json)>) -> (out: Vec<(String, Json)>)
    ensures
        entry_views(out@) == entry_views(entries@),
    decreases entries,
{
    let mut out: Vec<(String, Json)> = Vec::new();
    let mut i: usize = 0;
    while i < entries.len()
        invariant
            i <= entries.len(),
            out@.len() == i,
            forall|j: int|
                0 <= j < i ==> (#[trigger] out@[j]).0@ == entries@[j].0@ && out@[j].1@
                    == entries@[j].1@,
        decreases entries.len() - i,
    {
        assert(decreases_to!(entries => entries[i as int]));
        out.push((entries[i].0.clone(), entries[i].1.copy()));
        i = i + 1;
    }
    proof {
        lemma_entry_views(out@);
        lemma_entry_views(entries@);
        assert(entry_views(out@) =~= entry_views(entries@));
    }
    out
}

} // verus!
