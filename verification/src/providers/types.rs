//! The messages exchanged with the model endpoint.

use crate::json::{parsed, Json, JsonValue};
use vstd::prelude::*;
use vstd::string::StringExecFns;

verus! {

/// One message of a conversation.
#[derive(Debug)]
pub struct ChatMessage {
    pub role: String,
    pub content: String,
    pub name: Option<String>,
    pub tool_call_id: Option<String>,
}

/// What a [`ChatMessage`] holds, as mathematical data.
pub struct ChatMessageView {
    pub role: Seq<char>,
    pub content: Seq<char>,
    pub name: Option<Seq<char>>,
    pub tool_call_id: Option<Seq<char>>,
}

/// The characters of an optional string.
pub open spec fn option_text(s: Option<String>) -> Option<Seq<char>> {
    match s {
        Some(t) => Some(t@),
        None => None,
    }
}

impl View for ChatMessage {
    type V = ChatMessageView;

    open spec fn view(&self) -> ChatMessageView {
        ChatMessageView {
            role: self.role@,
            content: self.content@,
            name: option_text(self.name),
            tool_call_id: option_text(self.tool_call_id),
        }
    }
}

/// A message with the given role and content and nothing else.
pub open spec fn plain_message(role: Seq<char>, content: Seq<char>) -> ChatMessageView {
    ChatMessageView { role, content, name: None, tool_call_id: None }
}

/// A tool message that answers the invocation `tool_call_id`.
pub open spec fn tool_message(content: Seq<char>, tool_call_id: Seq<char>) -> ChatMessageView {
    ChatMessageView { role: "tool"@, content, name: None, tool_call_id: Some(tool_call_id) }
}

/// The views of a list of messages.
pub open spec fn message_views(messages: Seq<ChatMessage>) -> Seq<ChatMessageView> {
    Seq::new(messages.len(), |i: int| messages[i]@)
}

fn copy_optional(s: &Option<String>) -> (r: Option<String>)
    ensures
        option_text(r) == option_text(*s),
{
    match s {
        Some(t) => Some(t.clone()),
        None => None,
    }
}

impl ChatMessage {
    /// A message of the system.
    pub fn system(content: &str) -> (r: Self)
        ensures
            r@ == plain_message("system"@, content@),
    {
        Self {
            role: String::from_str("system"),
            content: String::from_str(content),
            name: None,
            tool_call_id: None,
        }
    }

    /// A message of the user.
    pub fn user(content: &str) -> (r: Self)
        ensures
            r@ == plain_message("user"@, content@),
    {
        Self {
            role: String::from_str("user"),
            content: String::from_str(content),
            name: None,
            tool_call_id: None,
        }
    }

    /// A message of the assistant.
    pub fn assistant(content: &str) -> (r: Self)
        ensures
            r@ == plain_message("assistant"@, content@),
    {
        Self {
            role: String::from_str("assistant"),
            content: String::from_str(content),
            name: None,
            tool_call_id: None,
        }
    }

    /// The result of a tool, linked to the invocation it answers.
    pub fn tool(content: &str, tool_call_id: &str) -> (r: Self)
        ensures
            r@ == tool_message(content@, tool_call_id@),
    {
        Self {
            role: String::from_str("tool"),
            content: String::from_str(content),
            name: None,
            tool_call_id: Some(String::from_str(tool_call_id)),
        }
    }

    /// A copy of the message.
    pub fn copy(&self) -> (r: Self)
        ensures
            r@ == self@,
    {
        Self {
            role: self.role.clone(),
            content: self.content.clone(),
            name: copy_optional(&self.name),
            tool_call_id: copy_optional(&self.tool_call_id),
        }
    }
}

/// Copies a list of messages.
pub fn copy_messages(messages: &Vec<ChatMessage>) -> (r: Vec<ChatMessage>)
    ensures
        message_views(r@) == message_views(messages@),
{
    let mut r: Vec<ChatMessage> = Vec::new();
    let mut i: usize = 0;
    while i < messages.len()
        invariant
            i <= messages.len(),
            r@.len() == i,
            forall|j: int| 0 <= j < i ==> (#[trigger] r@[j])@ == messages@[j]@,
        decreases messages.len() - i,
    {
        r.push(messages[i].copy());
        i = i + 1;
    }
    assert(message_views(r@) =~= message_views(messages@));
    r
}

/// The description of one function that the model may call.
#[derive(Debug)]
pub struct FunctionDefinition {
    pub name: String,
    pub description: String,
    pub parameters: Json,
}

/// One entry of the tool catalogue shown to the model.
#[derive(Debug)]
pub struct ToolDefinition {
    pub tool_type: String,
    pub function: FunctionDefinition,
}

/// The token counts that the endpoint reports.
#[derive(Debug, Clone, Copy, PartialEq, Eq, Structural)]
pub struct Usage {
    pub prompt_tokens: u32,
    pub completion_tokens: u32,
    pub total_tokens: u32,
}

/// The function named in a tool call of the endpoint's own format, with its
/// arguments as JSON text.
#[derive(Debug)]
pub struct FunctionCall {
    pub name: String,
    pub arguments: String,
}

/// A tool call in the endpoint's own format.
#[derive(Debug)]
pub struct ToolCall {
    pub id: String,
    pub tool_type: String,
    pub function: FunctionCall,
}

/// The message of one choice of a response.
#[derive(Debug)]
pub enum ResponseMessage {
    Simple { role: String, content: Option<String> },
    WithTools { role: String, content: Option<String>, tool_calls: Option<Vec<ToolCall>> },
}

impl ResponseMessage {
    /// The text of the message in contracts.
    pub open spec fn content_text(self) -> Option<Seq<char>> {
        match self {
            ResponseMessage::Simple { content, .. } => option_text(content),
            ResponseMessage::WithTools { content, .. } => option_text(content),
        }
    }

    /// The tool calls of the message in contracts.
    pub open spec fn calls(self) -> Option<Vec<ToolCall>> {
        match self {
            ResponseMessage::Simple { .. } => None,
            ResponseMessage::WithTools { tool_calls, .. } => tool_calls,
        }
    }

    /// The text of the message, if it has one.
    pub fn content(&self) -> (r: Option<&str>)
        ensures
            match r {
                Some(s) => self.content_text() == Some(s@),
                None => self.content_text() is None,
            },
    {
        match self {
            ResponseMessage::Simple { content, .. } => match content {
                Some(s) => Some(s.as_str()),
                None => None,
            },
            ResponseMessage::WithTools { content, .. } => match content {
                Some(s) => Some(s.as_str()),
                None => None,
            },
        }
    }

    /// The tool calls of the message, if it carries any.
    pub fn tool_calls(&self) -> (r: Option<&Vec<ToolCall>>)
        ensures
            match r {
                Some(calls) => self.calls() == Some(*calls),
                None => self.calls() is None,
            },
    {
        match self {
            ResponseMessage::Simple { .. } => None,
            ResponseMessage::WithTools { tool_calls, .. } => match tool_calls {
                Some(calls) => Some(calls),
                None => None,
            },
        }
    }
}

/// One choice of a response.
#[derive(Debug)]
pub struct Choice {
    pub message: ResponseMessage,
    pub finish_reason: String,
}

/// A complete response of the endpoint.
#[derive(Debug)]
pub struct ChatResponse {
    pub id: String,
    pub choices: Vec<Choice>,
    pub usage: Usage,
}

/// A tool call with its arguments decoded; `arguments` is a JSON object.
#[derive(Debug)]
pub struct ToolCallRequest {
    pub id: String,
    pub name: String,
    pub arguments: Json,
}

/// What the library keeps of a response: the text and the tool calls of the
/// first choice.
#[derive(Debug)]
pub struct LLMResponse {
    pub content: Option<String>,
    pub tool_calls: Vec<ToolCallRequest>,
    pub finish_reason: String,
    pub usage: Usage,
}

/// The arguments that a JSON text gives: the object it denotes, or the empty
/// object where it denotes no object.
pub open spec fn decoded_arguments(text: Seq<char>) -> JsonValue {
    match parsed(text) {
        Some(JsonValue::Object(entries)) => JsonValue::Object(entries),
        _ => JsonValue::Object(Seq::empty()),
    }
}

/// Whether `request` is `call` with its arguments decoded.
pub open spec fn decodes(request: ToolCallRequest, call: ToolCall) -> bool {
    &&& request.id@ == call.id@
    &&& request.name@ == call.function.name@
    &&& request.arguments@ == decoded_arguments(call.function.arguments@)
}

/// The tool calls of the first choice, or none where there is no choice or
/// the choice carries no calls.
pub open spec fn first_calls(choices: Seq<Choice>) -> Seq<ToolCall> {
    if choices.len() == 0 {
        Seq::empty()
    } else {
        match choices[0].message.calls() {
            Some(calls) => calls@,
            None => Seq::empty(),
        }
    }
}

/// Decodes the arguments of a tool call.
pub fn decode_arguments(text: &str) -> (r: Json)
    ensures
        r@ == decoded_arguments(text@),
{
    match crate::json::parse(text) {
        Some(Json::Object(entries)) => Json::Object(entries),
        _ => {
            let r = Json::Object(Vec::new());
            proof {
                crate::json::lemma_entry_views(Seq::<(String, Json)>::empty());
                assert(r@->Object_0 =~= Seq::empty());
            }
            r
        },
    }
}

impl LLMResponse {
    /// Whether the response asks for any tool.
    pub fn has_tool_calls(&self) -> (r: bool)
        ensures
            r == (self.tool_calls@.len() > 0),
    {
        self.tool_calls.len() > 0
    }

    /// Keeps the first choice of a response: its text, its tool calls with
    /// their arguments decoded, and why it ended; the usage is carried over.
    pub fn from_response(resp: ChatResponse) -> (r: Self)
        ensures
            r.usage == resp.usage,
            resp.choices@.len() == 0 ==> r.content is None && r.finish_reason@ == Seq::<char>::empty(),
            resp.choices@.len() > 0 ==> option_text(r.content)
                == resp.choices@[0].message.content_text() && r.finish_reason@
                == resp.choices@[0].finish_reason@,
            r.tool_calls@.len() == first_calls(resp.choices@).len(),
            forall|i: int|
                0 <= i < r.tool_calls@.len() ==> decodes(
                    #[trigger] r.tool_calls@[i],
                    first_calls(resp.choices@)[i],
                ),
    {
        let mut tool_calls: Vec<ToolCallRequest> = Vec::new();
        if resp.choices.len() == 0 {
            return Self {
                content: None,
                tool_calls,
                finish_reason: String::new(),
                usage: resp.usage,
            };
        }
        let choice = &resp.choices[0];
        let content = match choice.message.content() {
            Some(s) => Some(String::from_str(s)),
            None => None,
        };
        match choice.message.tool_calls() {
            Some(calls) => {
                let mut i: usize = 0;
                while i < calls.len()
                    invariant
                        i <= calls.len(),
                        tool_calls@.len() == i,
                        forall|j: int|
                            0 <= j < i ==> decodes(#[trigger] tool_calls@[j], calls@[j]),
                    decreases calls.len() - i,
                {
                    let call = &calls[i];
                    tool_calls.push(
                        ToolCallRequest {
                            id: call.id.clone(),
                            name: call.function.name.clone(),
                            arguments: decode_arguments(call.function.arguments.as_str()),
                        },
                    );
                    i = i + 1;
                }
            },
            None => {},
        }
        Self {
            content,
            tool_calls,
            finish_reason: choice.finish_reason.clone(),
            usage: resp.usage,
        }
    }
}

/// The part of a streamed choice that is new.
#[derive(Debug)]
pub struct StreamDelta {
    pub role: Option<String>,
    pub content: Option<String>,
}

/// One choice of a streamed frame.
#[derive(Debug)]
pub struct StreamChoice {
    pub delta: StreamDelta,
    pub finish_reason: Option<String>,
}

/// One frame of a streamed response.
#[derive(Debug)]
pub struct StreamResponse {
    pub id: String,
    pub choices: Vec<StreamChoice>,
}

impl StreamResponse {
    /// The piece of text that the frame carries: the content of its first
    /// choice, where that is not empty.
    pub open spec fn carried(self) -> Option<Seq<char>> {
        if self.choices@.len() == 0 {
            None
        } else {
            match self.choices@[0].delta.content {
                Some(text) => if text@.len() > 0 {
                    Some(text@)
                } else {
                    None
                },
                None => None,
            }
        }
    }

    /// The piece of text that the frame carries.
    pub fn first_text(&self) -> (r: Option<&str>)
        ensures
            match r {
                Some(text) => self.carried() == Some(text@),
                None => self.carried() is None,
            },
    {
        if self.choices.len() == 0 {
            return None;
        }
        match &self.choices[0].delta.content {
            Some(text) => {
                if text.as_str().unicode_len() > 0 {
                    Some(text.as_str())
                } else {
                    None
                }
            },
            None => None,
        }
    }
}

} // verus!
