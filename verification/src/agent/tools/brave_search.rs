//! The search tool: which queries it sends and how it shows what it found.

use crate::agent::tools::outcome_text;
use crate::agent::tools::schema::{
    number, number_arg, number_or, property, property_value, schema, schema_value,
};
use crate::json::{entry_views, lemma_entry_views, Json, JsonValue};
use crate::text::{
    chars_of, find_from, find_in, join, join_strings, string_of, string_views, trim, trim_chars,
};
use vstd::prelude::*;
use vstd::string::{StringExecFns, StringSliceAdditionalSpecFns};
use vstd::utf8::encode_utf8;

verus! {

/// Searches the web with the Brave Search API.
#[derive(Debug)]
pub struct BraveSearchTool {
    pub api_key: String,
    pub timeout_secs: u64,
}

/// The verdict on a query: the query, trimmed, or why it is not sent. A
/// query is not sent where it is empty, longer than 500 bytes, or holds a
/// null character.
pub open spec fn query_verdict(query: Seq<char>) -> Result<Seq<char>, Seq<char>> {
    if query.len() == 0 {
        Err("Query cannot be empty"@)
    } else if encode_utf8(query).len() > 500 {
        Err("Query too long (max 500 characters)"@)
    } else if find_from(trim(query), seq!['\0'], 0) is Some {
        Err("Query contains null characters"@)
    } else {
        Ok(trim(query))
    }
}

/// How many results are shown: what `args` says under `count`, or 5, and
/// never more than 10.
pub open spec fn shown_count(args: JsonValue) -> u64 {
    if number_or(args, "count"@, 5) > 10 {
        10
    } else {
        number_or(args, "count"@, 5)
    }
}

/// The text under `key` of a result, or `default` where there is none.
pub open spec fn field_or(result: JsonValue, key: Seq<char>, default: Seq<char>) -> Seq<char> {
    match result.field(key) {
        Some(JsonValue::Text(text)) => text,
        _ => default,
    }
}

/// How one result is shown.
pub open spec fn shown_result(result: JsonValue) -> Seq<char> {
    "Title: "@ + field_or(result, "title"@, "No title"@) + "\nURL: "@ + field_or(
        result,
        "url"@,
        "No URL"@,
    ) + "\nDescription: "@ + field_or(result, "description"@, "No description"@) + "\n"@
}

/// The results that a response holds: the array under `results` under
/// `web`, or none.
pub open spec fn results_of(response: JsonValue) -> Seq<JsonValue> {
    match response.field("web"@) {
        Some(web) => match web.field("results"@) {
            Some(JsonValue::Array(items)) => items,
            _ => Seq::empty(),
        },
        None => Seq::empty(),
    }
}

/// How many of `n` results are shown at the limit `count`.
pub open spec fn shown_len(n: nat, count: u64) -> nat {
    if n < count {
        n
    } else {
        count as nat
    }
}

/// What the tool returns for a response: the first `count` results, with an
/// empty line between each two, or a note that there are none.
pub open spec fn shown_results(response: JsonValue, count: u64) -> Seq<char> {
    if shown_len(results_of(response).len(), count) == 0 {
        "No search results found for the given query."@
    } else {
        join(
            Seq::new(
                shown_len(results_of(response).len(), count),
                |i: int| shown_result(results_of(response)[i]),
            ),
            "\n"@,
        )
    }
}

fn text_or(result: &Json, key: &str, default: &str) -> (r: String)
    ensures
        r@ == field_or(result@, key@, default@),
{
    match result.get(key) {
        Some(value) => match value.as_str() {
            Some(text) => String::from_str(text),
            None => String::from_str(default),
        },
        None => String::from_str(default),
    }
}

fn show_result(result: &Json) -> (r: String)
    ensures
        r@ == shown_result(result@),
{
    let mut text = String::from_str("Title: ");
    text.append(text_or(result, "title", "No title").as_str());
    text.append("\nURL: ");
    text.append(text_or(result, "url", "No URL").as_str());
    text.append("\nDescription: ");
    text.append(text_or(result, "description", "No description").as_str());
    text.append("\n");
    text
}

impl Default for BraveSearchTool {
    fn default() -> (r: Self)
        ensures
            r.api_key@ == Seq::<char>::empty(),
            r.timeout_secs == 30,
    {
        Self::new(String::new())
    }
}

impl BraveSearchTool {
    /// A search tool with the key `api_key` that gives a request 30
    /// seconds.
    pub fn new(api_key: String) -> (r: Self)
        ensures
            r.api_key == api_key,
            r.timeout_secs == 30,
    {
        Self { api_key, timeout_secs: 30 }
    }

    pub fn name(&self) -> (r: &'static str)
        ensures
            r@ == "brave_search"@,
    {
        "brave_search"
    }

    pub fn description(&self) -> (r: &'static str)
        ensures
            r@ == "Search the web using Brave Search API to find relevant information"@,
    {
        "Search the web using Brave Search API to find relevant information"
    }

    pub fn parameters(&self) -> (r: Json)
        ensures
            r@ == schema_value(
                seq![
                    ("query"@, property_value("string"@, "Search query to find information about"@)),
                    (
                        "count"@,
                        JsonValue::Object(
                            seq![
                                ("type"@, JsonValue::Text("integer"@)),
                                (
                                    "description"@,
                                    JsonValue::Text(
                                        "Number of results to return (default: 5, max: 10)"@,
                                    ),
                                ),
                                ("minimum"@, JsonValue::PosInt(1)),
                                ("maximum"@, JsonValue::PosInt(10)),
                            ],
                        ),
                    ),
                ],
                seq!["query"@],
            ),
    {
        let mut count: Vec<(String, Json)> = Vec::new();
        count.push((String::from_str("type"), Json::text("integer")));
        count.push(
            (
                String::from_str("description"),
                Json::text("Number of results to return (default: 5, max: 10)"),
            ),
        );
        count.push((String::from_str("minimum"), number(1)));
        count.push((String::from_str("maximum"), number(10)));
        proof {
            lemma_entry_views(count@);
            assert(entry_views(count@) =~= seq![
                ("type"@, JsonValue::Text("integer"@)),
                (
                    "description"@,
                    JsonValue::Text("Number of results to return (default: 5, max: 10)"@),
                ),
                ("minimum"@, JsonValue::PosInt(1)),
                ("maximum"@, JsonValue::PosInt(10)),
            ]);
        }
        let mut properties: Vec<(String, Json)> = Vec::new();
        properties.push(
            (
                String::from_str("query"),
                property("string", "Search query to find information about"),
            ),
        );
        properties.push((String::from_str("count"), Json::Object(count)));
        let mut required: Vec<String> = Vec::new();
        required.push(String::from_str("query"));
        proof {
            lemma_entry_views(properties@);
            assert(entry_views(properties@) =~= seq![
                ("query"@, property_value("string"@, "Search query to find information about"@)),
                (
                    "count"@,
                    JsonValue::Object(
                        seq![
                            ("type"@, JsonValue::Text("integer"@)),
                            (
                                "description"@,
                                JsonValue::Text(
                                    "Number of results to return (default: 5, max: 10)"@,
                                ),
                            ),
                            ("minimum"@, JsonValue::PosInt(1)),
                            ("maximum"@, JsonValue::PosInt(10)),
                        ],
                    ),
                ),
            ]);
            assert(string_views(required@) =~= seq!["query"@]);
        }
        schema(properties, required)
    }

    /// The query, trimmed, where it may be sent, or why it may not.
    pub fn validate_query(&self, query: &str) -> (r: Result<String, String>)
        ensures
            outcome_text(r) == query_verdict(query@),
    {
        if query.unicode_len() == 0 {
            return Err(String::from_str("Query cannot be empty"));
        }
        if query.as_bytes().len() > 500 {
            return Err(String::from_str("Query too long (max 500 characters)"));
        }
        let sanitized = trim_chars(&chars_of(query));
        let mut null: Vec<char> = Vec::new();
        null.push('\0');
        assert(null@ =~= seq!['\0']);
        if find_in(&sanitized, &null, 0).is_some() {
            return Err(String::from_str("Query contains null characters"));
        }
        Ok(string_of(&sanitized))
    }

    /// How many results are shown.
    pub fn result_count(&self, args: &Json) -> (r: u64)
        ensures
            r == shown_count(args@),
    {
        let count = number_arg(args, "count", 5);
        if count > 10 {
            10
        } else {
            count
        }
    }

    /// What the tool returns for a response of the search API.
    pub fn format_results(&self, response: &Json, count: u64) -> (r: String)
        ensures
            r@ == shown_results(response@, count),
    {
        let mut shown: Vec<String> = Vec::new();
        let found = match response.get("web") {
            Some(web) => web.get("results"),
            None => None,
        };
        match found {
            Some(Json::Array(items)) => {
                proof {
                    crate::json::lemma_item_views(items@);
                }
                let mut i: usize = 0;
                while i < items.len() && (i as u64) < count
                    invariant
                        i <= items@.len(),
                        i <= count,
                        shown@.len() == i,
                        results_of(response@).len() == items@.len(),
                        forall|j: int|
                            0 <= j < items@.len() ==> results_of(response@)[j] == items@[j]@,
                        forall|j: int|
                            0 <= j < i ==> (#[trigger] shown@[j])@ == shown_result(
                                results_of(response@)[j],
                            ),
                    decreases items.len() - i,
                {
                    shown.push(show_result(&items[i]));
                    i = i + 1;
                }
            },
            _ => {},
        }
        if shown.len() == 0 {
            String::from_str("No search results found for the given query.")
        } else {
            assert(string_views(shown@) =~= Seq::new(
                shown_len(results_of(response@).len(), count),
                |i: int| shown_result(results_of(response@)[i]),
            ));
            join_strings(&shown, "\n")
        }
    }
}

} // verus!
