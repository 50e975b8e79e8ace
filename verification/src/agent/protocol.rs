//! How the model asks for a tool: a fenced block of JSON inside its text.
//!
//! The block opens with three backticks and the word `json`, and closes with
//! the next three backticks. It holds an object with the key `tool`, the name
//! of a registered tool, and the key `arguments`, which is handed to the tool
//! as it stands. A text without such a block, a block that is not JSON of
//! this shape, and a block that names no registered tool are all the same: the
//! text asks for no tool.

use crate::agent::tools::{position, ToolInfo, ToolRegistry};
use crate::json::{parsed, Json, JsonValue};
use crate::text::{
    chars_of, decimal, decimal_of, find_from, find_in, lemma_find_from_is, occurs_at, slice_of,
    string_of, trim, trim_chars,
};
use vstd::prelude::*;
use vstd::string::StringExecFns;

verus! {

/// A request to run a tool, taken from the model's text.
#[derive(Debug)]
pub struct ToolInvocation {
    pub id: String,
    pub name: String,
    pub arguments: Json,
}

/// The marker that opens a block.
pub open spec fn fence_open() -> Seq<char> {
    "```json"@
}

/// The marker that closes a block.
pub open spec fn fence_close() -> Seq<char> {
    "```"@
}

/// What stands in the first block of `text`, trimmed: from behind the first
/// opening marker up to the next closing marker.
pub open spec fn fence_body(text: Seq<char>) -> Option<Seq<char>> {
    match find_from(text, fence_open(), 0) {
        None => None,
        Some(start) => match find_from(text, fence_close(), start + fence_open().len()) {
            None => None,
            Some(end) => Some(trim(text.subrange(start + fence_open().len(), end))),
        },
    }
}

/// The tool and the arguments that a JSON value names: an object with a
/// text under `tool` and any value under `arguments`.
pub open spec fn named_call(body: JsonValue) -> Option<(Seq<char>, JsonValue)> {
    match (body.field("tool"@), body.field("arguments"@)) {
        (Some(JsonValue::Text(name)), Some(arguments)) => Some((name, arguments)),
        _ => None,
    }
}

/// The call that a block asks for, given the value that its JSON denotes.
pub open spec fn call_among(body: Option<JsonValue>, tools: Seq<ToolInfo>) -> Option<
    (Seq<char>, JsonValue),
> {
    match body {
        None => None,
        Some(value) => match named_call(value) {
            Some((name, arguments)) => if position(tools, name) is Some {
                Some((name, arguments))
            } else {
                None
            },
            None => None,
        },
    }
}

/// The tool call that `text` asks for, among the tools `tools`.
pub open spec fn detected(text: Seq<char>, tools: Seq<ToolInfo>) -> Option<
    (Seq<char>, JsonValue),
> {
    match fence_body(text) {
        None => None,
        Some(body) => call_among(parsed(body), tools),
    }
}

/// The id of an invocation made at `nanos` nanoseconds.
pub open spec fn call_id(nanos: int) -> Seq<char> {
    "call_"@ + decimal(nanos)
}

/// A block is found whatever stands around it: where `before` holds no
/// opening marker and `inner` no closing marker, the body of
/// `before`, the opening marker, `inner`, the closing marker and `after`
/// in a row is `inner`, trimmed.
pub proof fn lemma_fence_in_prose(before: Seq<char>, inner: Seq<char>, after: Seq<char>)
    requires
        forall|j: int|
            0 <= j < before.len() ==> !occurs_at(
                before + fence_open() + inner + fence_close() + after,
                fence_open(),
                j,
            ),
        forall|j: int| 0 <= j < inner.len() ==> !occurs_at(inner + fence_close(), fence_close(), j),
    ensures
        fence_body(before + fence_open() + inner + fence_close() + after) == Some(trim(inner)),
{
    let text = before + fence_open() + inner + fence_close() + after;
    let start = before.len() as int;
    let from = start + fence_open().len();
    let end = from + inner.len();
    assert(text.subrange(start, from) =~= fence_open());
    lemma_find_from_is(text, fence_open(), 0, start);
    assert(text.subrange(end, end + fence_close().len()) =~= fence_close());
    assert forall|j: int| from <= j < end implies !occurs_at(text, fence_close(), j) by {
        let tail = inner + fence_close();
        if occurs_at(text, fence_close(), j) {
            assert(tail.subrange(j - from, j - from + fence_close().len()) =~= text.subrange(
                j,
                j + fence_close().len(),
            ));
            assert(occurs_at(tail, fence_close(), j - from));
        }
    }
    lemma_find_from_is(text, fence_close(), from, end);
    assert(text.subrange(from, end) =~= inner);
}

/// The trimmed body of the first block of `content`.
pub fn extract_fence(content: &str) -> (r: Option<String>)
    ensures
        match r {
            Some(body) => fence_body(content@) == Some(body@),
            None => fence_body(content@) is None,
        },
{
    let text = chars_of(content);
    let open = chars_of("```json");
    let close = chars_of("```");
    match find_in(&text, &open, 0) {
        None => None,
        Some(start) => {
            let from: usize = start + open.len();
            match find_in(&text, &close, from) {
                None => None,
                Some(end) => {
                    let inner = slice_of(&text, from, end);
                    let body = trim_chars(&inner);
                    Some(string_of(&body))
                },
            }
        },
    }
}

/// The tool and the arguments that a JSON value names.
pub fn call_in(body: &Json) -> (r: Option<(String, Json)>)
    ensures
        match r {
            Some((name, arguments)) => named_call(body@) == Some((name@, arguments@)),
            None => named_call(body@) is None,
        },
{
    let name = match body.get("tool") {
        Some(value) => match value.as_str() {
            Some(name) => name,
            None => {
                return None;
            },
        },
        None => {
            return None;
        },
    };
    match body.get("arguments") {
        Some(arguments) => Some((String::from_str(name), arguments.copy())),
        None => None,
    }
}

/// The invocation that `content` asks for, with the id of the moment
/// `nanos`. It is `None` where `content` holds no block, where the block is
/// not JSON that names a tool and arguments, and where no tool of that name
/// is registered.
pub fn detect_tool_call(content: &str, tools: &ToolRegistry, nanos: i64) -> (r: Option<
    ToolInvocation,
>)
    ensures
        match r {
            Some(call) => detected(content@, tools.infos()) == Some((call.name@, call.arguments@))
                && call.id@ == call_id(nanos as int),
            None => detected(content@, tools.infos()) is None,
        },
{
    let body = match extract_fence(content) {
        Some(body) => body,
        None => {
            return None;
        },
    };
    let value = match crate::json::parse(body.as_str()) {
        Some(value) => value,
        None => {
            return None;
        },
    };
    match call_in(&value) {
        Some((name, arguments)) => {
            if tools.contains(name.as_str()) {
                let mut id = String::from_str("call_");
                let stamp = string_of(&decimal_of(nanos));
                id.append(stamp.as_str());
                Some(ToolInvocation { id, name, arguments })
            } else {
                None
            }
        },
        None => None,
    }
}

/// `chrono::Utc::now` and `DateTime::timestamp_nanos_opt`: the nanoseconds
/// since 1970, or `None` where they do not fit. It is the clock's answer, so
/// nothing is promised of it.
#[verifier::external_body]
fn clock_nanos() -> Option<i64> {
    chrono::Utc::now().timestamp_nanos_opt()
}

/// The invocation that `content` asks for, with an id made from the clock.
pub fn parse_tool_call_from_json(content: &str, tools: &ToolRegistry) -> (r: Option<
    ToolInvocation,
>)
    ensures
        match r {
            Some(call) => detected(content@, tools.infos()) == Some((call.name@, call.arguments@))
                && exists|nanos: int| call.id@ == call_id(nanos),
            None => detected(content@, tools.infos()) is None,
        },
{
    let nanos: i64 = match clock_nanos() {
        Some(n) => n,
        None => 0,
    };
    let r = detect_tool_call(content, tools, nanos);
    proof {
        if r is Some {
            assert(r->0.id@ == call_id(nanos as int));
        }
    }
    r
}

/// A block that is no JSON asks for no tool.
pub proof fn lemma_malformed_json_is_no_call(text: Seq<char>, tools: Seq<ToolInfo>)
    requires
        fence_body(text) is Some ==> parsed(fence_body(text)->0) is None,
    ensures
        detected(text, tools) is None,
{
}

/// A block that names a tool which is not registered asks for no tool.
pub proof fn lemma_unknown_tool_is_no_call(
    text: Seq<char>,
    tools: Seq<ToolInfo>,
    name: Seq<char>,
    arguments: JsonValue,
)
    requires
        fence_body(text) is Some,
        parsed(fence_body(text)->0) is Some,
        named_call(parsed(fence_body(text)->0)->0) == Some((name, arguments)),
        position(tools, name) is None,
    ensures
        detected(text, tools) is None,
{
}

} // verus!
