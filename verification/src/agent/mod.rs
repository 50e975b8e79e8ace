//! The assistant itself: its tools, its memory and the loop that answers a
//! message.
//!
//! The assistant calls no model and reads no clock or file of its own
//! accord. Its caller does that and hands in what it got: the time and the
//! files for the prompt, the model's text for every step of a turn.

pub mod context;
pub mod history;
pub mod memory;
pub mod protocol;
pub mod tools;
pub mod turn;

pub use context::ContextBuilder;
pub use memory::MemoryStore;

use crate::agent::context::{
    session_section, system_prompt, system_prompt_with_tools, turn_messages, PromptInputs,
};
use crate::agent::history::{is_due, turn_entries, SessionHistory};
use crate::agent::tools::{defines, ToolRegistry};
use crate::agent::turn::{AgentTurn, OutcomeView, TurnOutcome, TurnView};
use crate::config::Config;
use crate::json::{
    entry_views, item_views, lemma_entry_views, lemma_item_views, pretty, render_pretty, Json,
    JsonValue,
};
use crate::providers::types::ToolDefinition;
use crate::text::string_views;
use vstd::prelude::*;
use vstd::string::StringExecFns;

verus! {

/// A definition as the catalogue shows it.
pub open spec fn definition_value(definition: ToolDefinition) -> JsonValue {
    JsonValue::Object(
        seq![
            ("type"@, JsonValue::Text(definition.tool_type@)),
            (
                "function"@,
                JsonValue::Object(
                    seq![
                        ("name"@, JsonValue::Text(definition.function.name@)),
                        ("description"@, JsonValue::Text(definition.function.description@)),
                        ("parameters"@, definition.function.parameters@),
                    ],
                ),
            ),
        ],
    )
}

/// The catalogue of tools as JSON: one object for each definition.
pub open spec fn catalogue_value(definitions: Seq<ToolDefinition>) -> JsonValue {
    JsonValue::Array(Seq::new(definitions.len(), |i: int| definition_value(definitions[i])))
}

/// What the user is told at the end of a turn: the answer, or that there is
/// none.
pub open spec fn response_text(outcome: OutcomeView) -> Seq<char> {
    match outcome {
        OutcomeView::Answered(text) => text,
        OutcomeView::AnsweredFromToolResults(text) => text,
        OutcomeView::NoResponse => "I've completed processing but have no response to give."@,
    }
}

/// What a direct question is answered with: the answer, or that there is
/// none.
pub open spec fn direct_text(outcome: OutcomeView) -> Seq<char> {
    match outcome {
        OutcomeView::Answered(text) => text,
        OutcomeView::AnsweredFromToolResults(text) => text,
        OutcomeView::NoResponse => "No response"@,
    }
}

fn definition_json(definition: &ToolDefinition) -> (r: Json)
    ensures
        r@ == definition_value(*definition),
{
    let mut function: Vec<(String, Json)> = Vec::new();
    function.push((String::from_str("name"), Json::text(definition.function.name.as_str())));
    function.push(
        (String::from_str("description"), Json::text(definition.function.description.as_str())),
    );
    function.push((String::from_str("parameters"), definition.function.parameters.copy()));
    let mut entries: Vec<(String, Json)> = Vec::new();
    entries.push((String::from_str("type"), Json::text(definition.tool_type.as_str())));
    proof {
        lemma_entry_views(function@);
        assert(entry_views(function@) =~= seq![
            ("name"@, JsonValue::Text(definition.function.name@)),
            ("description"@, JsonValue::Text(definition.function.description@)),
            ("parameters"@, definition.function.parameters@),
        ]);
    }
    entries.push((String::from_str("function"), Json::Object(function)));
    proof {
        lemma_entry_views(entries@);
        assert(entry_views(entries@) =~= definition_value(*definition)->Object_0);
    }
    Json::Object(entries)
}

/// The catalogue of tools as JSON.
pub fn catalogue(definitions: &Vec<ToolDefinition>) -> (r: Json)
    ensures
        r@ == catalogue_value(definitions@),
{
    let mut items: Vec<Json> = Vec::new();
    let mut i: usize = 0;
    while i < definitions.len()
        invariant
            i <= definitions@.len(),
            items@.len() == i,
            forall|j: int| 0 <= j < i ==> (#[trigger] items@[j])@ == definition_value(
                definitions@[j],
            ),
        decreases definitions.len() - i,
    {
        items.push(definition_json(&definitions[i]));
        i = i + 1;
    }
    proof {
        lemma_item_views(items@);
        assert(item_views(items@) =~= catalogue_value(definitions@)->Array_0);
    }
    Json::Array(items)
}

/// What the user is told at the end of a turn.
pub fn response_of(outcome: TurnOutcome) -> (r: String)
    ensures
        r@ == response_text(outcome@),
{
    match outcome {
        TurnOutcome::Answered(text) => text,
        TurnOutcome::AnsweredFromToolResults(text) => text,
        TurnOutcome::NoResponse => String::from_str(
            "I've completed processing but have no response to give.",
        ),
    }
}

/// What a direct question is answered with.
pub fn direct_response_of(outcome: TurnOutcome) -> (r: String)
    ensures
        r@ == direct_text(outcome@),
{
    match outcome {
        TurnOutcome::Answered(text) => text,
        TurnOutcome::AnsweredFromToolResults(text) => text,
        TurnOutcome::NoResponse => String::from_str("No response"),
    }
}

/// The text of an answer as it streams in, piece by piece.
pub struct StreamBuffer {
    content: String,
    phase: u8,
    received: Ghost<nat>,
}

impl StreamBuffer {
    /// The text so far.
    pub closed spec fn content(&self) -> Seq<char> {
        self.content@
    }

    /// How many pieces have come in.
    pub closed spec fn received(&self) -> nat {
        self.received@
    }

    /// The buffer counts its pieces.
    pub closed spec fn wf(&self) -> bool {
        self.phase as nat == self.received@ % 4
    }

    /// An empty buffer.
    pub fn new() -> (r: Self)
        ensures
            r.content() == Seq::<char>::empty(),
            r.received() == 0,
            r.wf(),
    {
        Self { content: String::new(), phase: 0, received: Ghost(0) }
    }

    /// Takes in a piece. Every fourth piece the text so far is handed out,
    /// to be shown as progress.
    pub fn push(&mut self, piece: &str) -> (r: Option<String>)
        requires
            old(self).wf(),
        ensures
            final(self).wf(),
            final(self).content() == old(self).content() + piece@,
            final(self).received() == old(self).received() + 1,
            match r {
                Some(text) => final(self).received() % 4 == 0 && text@ == final(self).content(),
                None => final(self).received() % 4 != 0,
            },
    {
        self.content.append(piece);
        self.received = Ghost((self.received@ + 1) as nat);
        if self.phase == 3 {
            self.phase = 0;
            Some(self.content.clone())
        } else {
            self.phase = self.phase + 1;
            None
        }
    }

    /// The whole text, once the stream is over.
    pub fn finish(self) -> (r: String)
        ensures
            r@ == self.content(),
    {
        self.content
    }
}

/// An assistant: its settings, its tools, and the history of its session.
pub struct AgentLoop {
    pub workspace: String,
    pub model: String,
    pub max_iterations: u32,
    pub max_tokens: u32,
    pub memory_window: u32,
    pub tools: ToolRegistry,
    pub context: ContextBuilder,
    pub session_history: SessionHistory,
}

impl AgentLoop {
    /// An assistant with the settings `config`, the workspace `workspace`
    /// and the tools `tools`, at the beginning of its session.
    pub fn new(config: &Config, workspace: &str, tools: ToolRegistry) -> (r: Self)
        ensures
            r.workspace@ == workspace@,
            r.model@ == config.agent.model@,
            r.max_iterations == config.agent.max_iterations,
            r.max_tokens == config.agent.max_tokens,
            r.memory_window == config.agent.memory_window,
            r.tools.infos() == tools.infos(),
            r.context.workspace@ == workspace@,
            r.session_history@ == Seq::<crate::agent::history::EntryView>::empty(),
    {
        Self {
            workspace: String::from_str(workspace),
            model: config.agent.model.clone(),
            max_iterations: config.agent.max_iterations,
            max_tokens: config.agent.max_tokens,
            memory_window: config.agent.memory_window,
            tools,
            context: ContextBuilder::new(workspace),
            session_history: SessionHistory::new(),
        }
    }

    /// Begins the turn for what a user said on a channel. The model is shown
    /// the system prompt, with the catalogue where there are tools, the
    /// history of the session and what the user said.
    pub fn begin_turn(&self, inputs: &PromptInputs, content: &str, channel: &str, chat_id: &str) -> (r:
        AgentTurn)
        ensures
            r@.max_iterations == self.max_iterations,
            r@.iteration == 0,
            r@.answer is None,
            r@.tool_results.len() == 0,
            r@.tools_used.len() == 0,
            self.tools.infos().len() == 0 ==> r@.messages == turn_messages(
                system_prompt(self.context.workspace@, *inputs) + session_section(
                    Some(channel@),
                    Some(chat_id@),
                ),
                self.session_history@,
                content@,
            ),
            self.tools.infos().len() > 0 ==> exists|definitions: Seq<ToolDefinition>|
                {
                    &&& definitions.len() == self.tools.infos().len()
                    &&& forall|i: int|
                        0 <= i < definitions.len() ==> defines(
                            #[trigger] definitions[i],
                            self.tools.infos()[i],
                        )
                    &&& r@.messages == turn_messages(
                        system_prompt_with_tools(
                            self.context.workspace@,
                            *inputs,
                            pretty(catalogue_value(definitions)),
                        ) + session_section(Some(channel@), Some(chat_id@)),
                        self.session_history@,
                        content@,
                    )
                },
    {
        let definitions = self.tools.get_definitions();
        let messages = if definitions.len() > 0 {
            let tools_json = render_pretty(&catalogue(&definitions));
            self.context.build_messages_with_tools(
                inputs,
                &self.session_history,
                content,
                Some(channel),
                Some(chat_id),
                tools_json.as_str(),
            )
        } else {
            self.context.build_messages(
                inputs,
                &self.session_history,
                content,
                Some(channel),
                Some(chat_id),
            )
        };
        AgentTurn::new(messages, self.max_iterations)
    }

    /// Begins the turn for a question asked directly, on the channel `cli`
    /// in the chat `direct`. The prompt holds no catalogue.
    pub fn begin_direct(&self, inputs: &PromptInputs, content: &str) -> (r: AgentTurn)
        ensures
            r@ == TurnView::start(
                turn_messages(
                    system_prompt(self.context.workspace@, *inputs) + session_section(
                        Some("cli"@),
                        Some("direct"@),
                    ),
                    self.session_history@,
                    content@,
                ),
                self.max_iterations as nat,
            ),
    {
        let messages = self.context.build_messages(
            inputs,
            &self.session_history,
            content,
            Some("cli"),
            Some("direct"),
        );
        AgentTurn::new(messages, self.max_iterations)
    }

    /// Closes a turn that ended in an outcome or failed. After an outcome
    /// the turn is ended as `finish_turn` ends it. After a failure the error
    /// goes to the caller and the history stays as it was.
    pub fn close_turn(
        &mut self,
        said: &str,
        ended: Result<TurnOutcome, String>,
        tools_used: Vec<String>,
    ) -> (r: Result<(String, bool), String>)
        ensures
            match ended_view(ended) {
                Ok(outcome) => r is Ok && r->Ok_0.0@ == response_text(outcome) && r->Ok_0.1
                    == is_due(final(self).session_history@.len(), old(self).memory_window as nat)
                    && final(self).session_history@ == old(self).session_history@ + turn_entries(
                    said@,
                    response_text(outcome),
                    string_views(tools_used@),
                ),
                Err(error) => r is Err && r->Err_0@ == error && final(self).session_history@
                    == old(self).session_history@,
            },
            final(self).tools.infos() == old(self).tools.infos(),
            final(self).max_iterations == old(self).max_iterations,
            final(self).memory_window == old(self).memory_window,
            final(self).context == old(self).context,
    {
        match ended {
            Ok(outcome) => Ok(self.finish_turn(said, outcome, tools_used)),
            Err(error) => Err(error),
        }
    }

    /// Ends a turn: the history grows by what the user said and what the
    /// assistant answers, and the answer is handed out together with
    /// whether the history is now due for consolidation.
    pub fn finish_turn(&mut self, said: &str, outcome: TurnOutcome, tools_used: Vec<String>) -> (r: (
        String,
        bool,
    ))
        ensures
            r.0@ == response_text(outcome@),
            r.1 == is_due(final(self).session_history@.len(), old(self).memory_window as nat),
            final(self).session_history@ == old(self).session_history@ + turn_entries(
                said@,
                response_text(outcome@),
                string_views(tools_used@),
            ),
            final(self).tools.infos() == old(self).tools.infos(),
            final(self).max_iterations == old(self).max_iterations,
            final(self).memory_window == old(self).memory_window,
            final(self).context == old(self).context,
    {
        let response = response_of(outcome);
        self.session_history.record_turn(said, response.as_str(), tools_used);
        let due = self.session_history.needs_consolidation(self.memory_window);
        (response, due)
    }
}

/// How a turn ended: with an outcome, or with the error of the model call
/// that failed.
pub open spec fn ended_view(ended: Result<TurnOutcome, String>) -> Result<OutcomeView, Seq<char>> {
    match ended {
        Ok(outcome) => Ok(outcome@),
        Err(error) => Err(error@),
    }
}

/// A turn adds exactly two entries to the history: one of the user, then
/// one of the assistant.
pub proof fn lemma_turn_adds_a_pair(said: Seq<char>, answer: Seq<char>, tools_used: Seq<Seq<char>>)
    ensures
        turn_entries(said, answer, tools_used).len() == 2,
        turn_entries(said, answer, tools_used)[0].role == crate::agent::history::Role::User,
        turn_entries(said, answer, tools_used)[1].role == crate::agent::history::Role::Assistant,
{
}

} // verus!
