//! Building what the model is shown: the system prompt and the list of
//! messages of a turn.

use crate::agent::history::{EntryView, Role, SessionHistory};
use crate::agent::memory::{memory_section, MemoryStore};
use crate::providers::types::{
    message_views, plain_message, tool_message, ChatMessage, ChatMessageView,
};
use crate::text::{chars_of, join, join_strings, string_of, string_views, trim, trim_chars};
use vstd::prelude::*;
use vstd::string::StringExecFns;

verus! {

/// A file of the workspace that goes into the system prompt.
#[derive(Debug)]
pub struct BootstrapFile {
    pub name: String,
    pub content: String,
}

/// What a system prompt is built from besides the workspace: the time, the
/// bootstrap files that could be read, and the long-term memory.
#[derive(Debug)]
pub struct PromptInputs {
    pub now: String,
    pub bootstrap: Vec<BootstrapFile>,
    pub long_term_memory: String,
}

/// Builds the prompt and the messages for the workspace it was made for.
#[derive(Debug)]
pub struct ContextBuilder {
    pub workspace: String,
    pub memory: MemoryStore,
}

/// Who the assistant is, what time it is and where its workspace lies.
pub open spec fn identity(now: Seq<char>, workspace: Seq<char>) -> Seq<char> {
    "# Santoso 🤖\n\nYou are Santoso, a helpful AI assistant.\n\n## Current Time\n"@ + now
        + "\n\n## Workspace\nYour workspace is at: "@ + workspace + "\n- Long-term memory: "@
        + workspace + "/memory/MEMORY.md\n- History log: "@ + workspace
        + "/memory/HISTORY.md\n\n## Your Capabilities\nYou have access to tools that allow you to:\n- Read, write, and edit files\n- Execute shell commands\n- Fetch web pages\n- Send messages to users\n- Spawn subagents for background tasks\n\nIMPORTANT: When responding to direct questions or conversations, reply directly with your text response.\nOnly use the 'message' tool when you need to send a message to a specific chat channel.\n\nAlways be helpful, accurate, and concise. When using tools, think step by step.\nWhen remembering something important, write to "@
        + workspace + "/memory/MEMORY.md"@
}

/// The section of the prompt for one bootstrap file.
pub open spec fn bootstrap_part(name: Seq<char>, content: Seq<char>) -> Seq<char> {
    "## "@ + name + "\n\n"@ + trim(content)
}

/// The sections of the bootstrap files that hold more than white space, in
/// order.
pub open spec fn bootstrap_parts(files: Seq<BootstrapFile>) -> Seq<Seq<char>>
    decreases files.len(),
{
    if files.len() == 0 {
        Seq::empty()
    } else if trim(files.last().content@).len() == 0 {
        bootstrap_parts(files.drop_last())
    } else {
        bootstrap_parts(files.drop_last()).push(
            bootstrap_part(files.last().name@, files.last().content@),
        )
    }
}

/// The sections of a prompt: the identity, then the bootstrap files and the
/// memory where they are not empty.
pub open spec fn prompt_parts(workspace: Seq<char>, inputs: PromptInputs) -> Seq<Seq<char>> {
    let bootstrap = join(bootstrap_parts(inputs.bootstrap@), "\n\n"@);
    let memory = memory_section(inputs.long_term_memory@);
    seq![identity(inputs.now@, workspace)] + (if bootstrap.len() > 0 {
        seq![bootstrap]
    } else {
        Seq::empty()
    }) + (if memory.len() > 0 {
        seq![memory]
    } else {
        Seq::empty()
    })
}

/// The system prompt.
pub open spec fn system_prompt(workspace: Seq<char>, inputs: PromptInputs) -> Seq<char> {
    join(prompt_parts(workspace, inputs), "\n\n---\n\n"@)
}

/// The system prompt with the catalogue of tools and how to call them.
pub open spec fn system_prompt_with_tools(
    workspace: Seq<char>,
    inputs: PromptInputs,
    tools_json: Seq<char>,
) -> Seq<char> {
    system_prompt(workspace, inputs)
        + "\n\n## Available Tools\nYou have access to the following tools. When you need to use a tool, respond with a JSON object in this format:\n```json\n{\n    \"tool\": \"tool_name\",\n    \"arguments\": {\n        \"arg1\": \"value1\",\n        \"arg2\": \"value2\"\n    }\n}\n```\n\nAvailable tools:\n"@
        + tools_json
        + "\n\nAfter receiving the tool result, you can continue with your response or use another tool if needed.\nIf the user's request doesn't require any tools, just respond naturally with text."@
}

/// What the prompt says of the session, where channel and chat are known.
pub open spec fn session_section(channel: Option<Seq<char>>, chat_id: Option<Seq<char>>) -> Seq<
    char,
> {
    match (channel, chat_id) {
        (Some(ch), Some(cid)) => "\n\n## Current Session\nChannel: "@ + ch + "\nChat ID: "@ + cid,
        _ => Seq::empty(),
    }
}

/// The message for an entry of the history.
pub open spec fn history_message(entry: EntryView) -> ChatMessageView {
    match entry.role {
        Role::Assistant => plain_message("assistant"@, entry.content),
        Role::User => plain_message("user"@, entry.content),
    }
}

/// The messages of a turn: the system prompt, the history, and what the user
/// says now.
pub open spec fn turn_messages(
    prompt: Seq<char>,
    history: Seq<EntryView>,
    current: Seq<char>,
) -> Seq<ChatMessageView> {
    seq![plain_message("system"@, prompt)] + Seq::new(
        history.len(),
        |i: int| history_message(history[i]),
    ) + seq![plain_message("user"@, current)]
}

/// The characters of an optional string slice.
pub open spec fn optional_text(s: Option<&str>) -> Option<Seq<char>> {
    match s {
        Some(t) => Some(t@),
        None => None,
    }
}

/// The names of the bootstrap files, in the order of their sections.
pub fn bootstrap_file_names() -> (r: Vec<String>)
    ensures
        r@.len() == 5,
        r@[0]@ == "AGENTS.md"@,
        r@[1]@ == "SOUL.md"@,
        r@[2]@ == "USER.md"@,
        r@[3]@ == "TOOLS.md"@,
        r@[4]@ == "IDENTITY.md"@,
{
    let mut r: Vec<String> = Vec::new();
    r.push(String::from_str("AGENTS.md"));
    r.push(String::from_str("SOUL.md"));
    r.push(String::from_str("USER.md"));
    r.push(String::from_str("TOOLS.md"));
    r.push(String::from_str("IDENTITY.md"));
    r
}

fn session_text(channel: Option<&str>, chat_id: Option<&str>) -> (r: String)
    ensures
        r@ == session_section(optional_text(channel), optional_text(chat_id)),
{
    match (channel, chat_id) {
        (Some(ch), Some(cid)) => {
            let mut text = String::from_str("\n\n## Current Session\nChannel: ");
            text.append(ch);
            text.append("\nChat ID: ");
            text.append(cid);
            text
        },
        _ => String::new(),
    }
}

fn messages_from(prompt: String, history: &SessionHistory, current: &str) -> (r: Vec<ChatMessage>)
    ensures
        message_views(r@) == turn_messages(prompt@, history@, current@),
{
    let mut messages: Vec<ChatMessage> = Vec::new();
    messages.push(ChatMessage::system(prompt.as_str()));
    let mut i: usize = 0;
    while i < history.len()
        invariant
            i <= history@.len(),
            messages@.len() == i + 1,
            messages@[0]@ == plain_message("system"@, prompt@),
            forall|j: int|
                0 <= j < i ==> (#[trigger] messages@[j + 1])@ == history_message(history@[j]),
        decreases history@.len() - i,
    {
        let entry = history.entry(i);
        let message = match entry.role {
            Role::Assistant => ChatMessage::assistant(entry.content.as_str()),
            Role::User => ChatMessage::user(entry.content.as_str()),
        };
        messages.push(message);
        i = i + 1;
    }
    messages.push(ChatMessage::user(current));
    proof {
        let want = turn_messages(prompt@, history@, current@);
        assert(message_views(messages@).len() == want.len());
        assert forall|k: int| 0 <= k < want.len() implies message_views(messages@)[k]
            == want[k] by {
            if 0 < k && k <= history@.len() {
                assert(messages@[(k - 1) + 1]@ == history_message(history@[k - 1]));
            }
        }
        assert(message_views(messages@) =~= want);
    }
    messages
}

impl ContextBuilder {
    /// A builder for the workspace `workspace`.
    pub fn new(workspace: &str) -> (r: Self)
        ensures
            r.workspace@ == workspace@,
            r.memory.memory_dir@ == workspace@ + "/memory"@,
    {
        Self { workspace: String::from_str(workspace), memory: MemoryStore::new(workspace) }
    }

    fn get_identity(&self, now: &str) -> (r: String)
        ensures
            r@ == identity(now@, self.workspace@),
    {
        let ws = self.workspace.as_str();
        let mut text = String::from_str(
            "# Santoso 🤖\n\nYou are Santoso, a helpful AI assistant.\n\n## Current Time\n",
        );
        text.append(now);
        text.append("\n\n## Workspace\nYour workspace is at: ");
        text.append(ws);
        text.append("\n- Long-term memory: ");
        text.append(ws);
        text.append("/memory/MEMORY.md\n- History log: ");
        text.append(ws);
        text.append(
            "/memory/HISTORY.md\n\n## Your Capabilities\nYou have access to tools that allow you to:\n- Read, write, and edit files\n- Execute shell commands\n- Fetch web pages\n- Send messages to users\n- Spawn subagents for background tasks\n\nIMPORTANT: When responding to direct questions or conversations, reply directly with your text response.\nOnly use the 'message' tool when you need to send a message to a specific chat channel.\n\nAlways be helpful, accurate, and concise. When using tools, think step by step.\nWhen remembering something important, write to ",
        );
        text.append(ws);
        text.append("/memory/MEMORY.md");
        text
    }

    fn load_bootstrap_files(&self, files: &Vec<BootstrapFile>) -> (r: String)
        ensures
            r@ == join(bootstrap_parts(files@), "\n\n"@),
    {
        let mut parts: Vec<String> = Vec::new();
        let mut i: usize = 0;
        while i < files.len()
            invariant
                i <= files@.len(),
                string_views(parts@) == bootstrap_parts(files@.subrange(0, i as int)),
            decreases files.len() - i,
        {
            let file = &files[i];
            let content = trim_chars(&chars_of(file.content.as_str()));
            proof {
                let next = files@.subrange(0, i + 1);
                assert(next.last() == files@[i as int]);
                assert(next.drop_last() == files@.subrange(0, i as int));
            }
            if content.len() > 0 {
                let mut part = String::from_str("## ");
                part.append(file.name.as_str());
                part.append("\n\n");
                part.append(string_of(&content).as_str());
                proof {
                    assert(string_views(parts@.push(part)) =~= string_views(parts@).push(part@));
                }
                parts.push(part);
            }
            i = i + 1;
        }
        assert(files@.subrange(0, files.len() as int) == files@);
        join_strings(&parts, "\n\n")
    }

    /// The system prompt: who the assistant is, then the bootstrap files and
    /// the long-term memory, where there are any.
    pub fn build_system_prompt(&self, inputs: &PromptInputs) -> (r: String)
        ensures
            r@ == system_prompt(self.workspace@, *inputs),
    {
        let identity = self.get_identity(inputs.now.as_str());
        let bootstrap = self.load_bootstrap_files(&inputs.bootstrap);
        let memory = self.memory.get_memory_context(inputs.long_term_memory.as_str());
        let mut parts: Vec<String> = Vec::new();
        parts.push(identity);
        if bootstrap.as_str().unicode_len() > 0 {
            parts.push(bootstrap);
        }
        if memory.as_str().unicode_len() > 0 {
            parts.push(memory);
        }
        assert(string_views(parts@) =~= prompt_parts(self.workspace@, *inputs));
        join_strings(&parts, "\n\n---\n\n")
    }

    /// The system prompt with the catalogue `tools_json` and how the model
    /// calls a tool.
    pub fn build_system_prompt_with_tools(&self, inputs: &PromptInputs, tools_json: &str) -> (r:
        String)
        ensures
            r@ == system_prompt_with_tools(self.workspace@, *inputs, tools_json@),
    {
        let mut prompt = self.build_system_prompt(inputs);
        prompt.append(
            "\n\n## Available Tools\nYou have access to the following tools. When you need to use a tool, respond with a JSON object in this format:\n```json\n{\n    \"tool\": \"tool_name\",\n    \"arguments\": {\n        \"arg1\": \"value1\",\n        \"arg2\": \"value2\"\n    }\n}\n```\n\nAvailable tools:\n",
        );
        prompt.append(tools_json);
        prompt.append(
            "\n\nAfter receiving the tool result, you can continue with your response or use another tool if needed.\nIf the user's request doesn't require any tools, just respond naturally with text.",
        );
        prompt
    }

    /// The messages of a turn: the system prompt with the session, the
    /// history, and what the user says now.
    pub fn build_messages(
        &self,
        inputs: &PromptInputs,
        history: &SessionHistory,
        current_message: &str,
        channel: Option<&str>,
        chat_id: Option<&str>,
    ) -> (r: Vec<ChatMessage>)
        ensures
            message_views(r@) == turn_messages(
                system_prompt(self.workspace@, *inputs) + session_section(
                    optional_text(channel),
                    optional_text(chat_id),
                ),
                history@,
                current_message@,
            ),
    {
        let mut prompt = self.build_system_prompt(inputs);
        prompt.append(session_text(channel, chat_id).as_str());
        messages_from(prompt, history, current_message)
    }

    /// The messages of a turn, with the catalogue `tools_json` in the system
    /// prompt.
    pub fn build_messages_with_tools(
        &self,
        inputs: &PromptInputs,
        history: &SessionHistory,
        current_message: &str,
        channel: Option<&str>,
        chat_id: Option<&str>,
        tools_json: &str,
    ) -> (r: Vec<ChatMessage>)
        ensures
            message_views(r@) == turn_messages(
                system_prompt_with_tools(self.workspace@, *inputs, tools_json@) + session_section(
                    optional_text(channel),
                    optional_text(chat_id),
                ),
                history@,
                current_message@,
            ),
    {
        let mut prompt = self.build_system_prompt_with_tools(inputs, tools_json);
        prompt.append(session_text(channel, chat_id).as_str());
        messages_from(prompt, history, current_message)
    }

    /// Adds the result of a tool to the messages.
    pub fn add_tool_result(
        &self,
        messages: &mut Vec<ChatMessage>,
        tool_call_id: &str,
        _tool_name: &str,
        result: &str,
    )
        ensures
            message_views(final(messages)@) == message_views(old(messages)@).push(
                tool_message(result@, tool_call_id@),
            ),
    {
        messages.push(ChatMessage::tool(result, tool_call_id));
        assert(message_views(messages@) =~= message_views(old(messages)@).push(
            tool_message(result@, tool_call_id@),
        ));
    }

    /// Adds what the assistant said to the messages, where it said anything.
    pub fn add_assistant_message(&self, messages: &mut Vec<ChatMessage>, content: Option<&str>)
        ensures
            message_views(final(messages)@) == match content {
                Some(text) => message_views(old(messages)@).push(
                    plain_message("assistant"@, text@),
                ),
                None => message_views(old(messages)@),
            },
    {
        match content {
            Some(text) => {
                messages.push(ChatMessage::assistant(text));
                assert(message_views(messages@) =~= message_views(old(messages)@).push(
                    plain_message("assistant"@, text@),
                ));
            },
            None => {},
        }
    }
}

} // verus!
