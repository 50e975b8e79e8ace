//! One turn of the assistant: a bounded run of model calls, each of which
//! either asks for a tool or gives the answer.
//!
//! A turn never calls the model itself. `next` says what is to be done; the
//! caller asks the model and hands its text to `receive`, which runs the tool
//! that the text asks for, if any. The turn ends with the first text that asks
//! for no tool, or when `max_iterations` model calls have been made. A model
//! call that fails, before its text begins or in the midst of it, is handed
//! to `fail`: the turn is then over without an answer, and is not tried
//! again.

use crate::agent::protocol::{call_id, detect_tool_call, detected, ToolInvocation};
use crate::agent::tools::{outcome_text, position, ToolRegistry};
use crate::providers::types::{
    copy_messages, message_views, plain_message, tool_message, ChatMessage, ChatMessageView,
};
use crate::text::{join, join_strings, string_views};
use vstd::prelude::*;
use vstd::string::StringExecFns;

verus! {

/// How a turn ended.
#[derive(Debug)]
pub enum TurnOutcome {
    /// The model gave a text that asks for no tool.
    Answered(String),
    /// The iterations ran out; the answer is the results of the tools, one
    /// per line, in the order in which the tools ran.
    AnsweredFromToolResults(String),
    /// The iterations ran out and no tool ever ran.
    NoResponse,
}

/// A [`TurnOutcome`] as mathematical data.
pub enum OutcomeView {
    Answered(Seq<char>),
    AnsweredFromToolResults(Seq<char>),
    NoResponse,
}

impl View for TurnOutcome {
    type V = OutcomeView;

    open spec fn view(&self) -> OutcomeView {
        match self {
            TurnOutcome::Answered(s) => OutcomeView::Answered(s@),
            TurnOutcome::AnsweredFromToolResults(s) => OutcomeView::AnsweredFromToolResults(s@),
            TurnOutcome::NoResponse => OutcomeView::NoResponse,
        }
    }
}

/// What the caller of a turn does next.
#[derive(Debug)]
pub enum Step {
    /// Send these messages to the model and hand its text to `receive`.
    CallModel(Vec<ChatMessage>),
    /// The turn is over.
    Done(TurnOutcome),
    /// The turn was given up because a model call failed; this is the error.
    Failed(String),
}

/// A [`Step`] as mathematical data.
pub enum StepView {
    CallModel(Seq<ChatMessageView>),
    Done(OutcomeView),
    Failed(Seq<char>),
}

impl View for Step {
    type V = StepView;

    open spec fn view(&self) -> StepView {
        match self {
            Step::CallModel(messages) => StepView::CallModel(message_views(messages@)),
            Step::Done(outcome) => StepView::Done(outcome@),
            Step::Failed(error) => StepView::Failed(error@),
        }
    }
}

/// The message that asks the model to go on after a tool has run.
pub open spec fn steering() -> Seq<char> {
    "Tool executed. Continue with your response or use another tool if needed."@
}

/// What the model is told of a tool's outcome: the result, or the error behind
/// `Error: `.
pub open spec fn result_text(outcome: Result<Seq<char>, Seq<char>>) -> Seq<char> {
    match outcome {
        Ok(result) => result,
        Err(error) => "Error: "@ + error,
    }
}

/// The state of a turn, as mathematical data.
pub struct TurnView {
    /// How many model calls the turn may make.
    pub max_iterations: nat,
    /// How many it has made.
    pub iteration: nat,
    /// The conversation so far.
    pub messages: Seq<ChatMessageView>,
    /// The names of the tools that ran, in order.
    pub tools_used: Seq<Seq<char>>,
    /// What each of them gave, in order.
    pub tool_results: Seq<Seq<char>>,
    /// The answer, once the model has given it.
    pub answer: Option<Seq<char>>,
    /// The error of the model call that failed, once one has.
    pub failure: Option<Seq<char>>,
}

impl TurnView {
    /// A turn that has not called the model yet.
    pub open spec fn start(messages: Seq<ChatMessageView>, max_iterations: nat) -> TurnView {
        TurnView {
            max_iterations,
            iteration: 0,
            messages,
            tools_used: Seq::empty(),
            tool_results: Seq::empty(),
            answer: None,
            failure: None,
        }
    }

    /// Whether the turn goes on with another model call.
    pub open spec fn wants_model(self) -> bool {
        self.failure is None && self.answer is None && self.iteration < self.max_iterations
    }

    /// How the turn ends where it ends in this state.
    pub open spec fn outcome(self) -> OutcomeView {
        match self.answer {
            Some(text) => OutcomeView::Answered(text),
            None => if self.tool_results.len() > 0 {
                OutcomeView::AnsweredFromToolResults(join(self.tool_results, "\n"@))
            } else {
                OutcomeView::NoResponse
            },
        }
    }

    /// What is to be done in this state.
    pub open spec fn step(self) -> StepView {
        match self.failure {
            Some(error) => StepView::Failed(error),
            None => if self.wants_model() {
                StepView::CallModel(self.messages)
            } else {
                StepView::Done(self.outcome())
            },
        }
    }

    /// The state after `next`: a model call begins where the turn goes on.
    pub open spec fn advanced(self) -> TurnView {
        if self.wants_model() {
            TurnView { iteration: self.iteration + 1, ..self }
        } else {
            self
        }
    }

    /// The state after the model gave `content`, which asks for no tool.
    pub open spec fn answered(self, content: Seq<char>) -> TurnView {
        TurnView { answer: Some(content), ..self }
    }

    /// The state after a model call failed with `error`.
    pub open spec fn failed(self, error: Seq<char>) -> TurnView {
        TurnView { failure: Some(error), ..self }
    }

    /// The state after the model gave `content`, which asks for the tool
    /// `name` under the id `id`, and the tool ended in `outcome`: the tool is
    /// recorded as used, and the conversation grows by the model's text, the
    /// tool's result and the request to go on.
    pub open spec fn tool_ran(
        self,
        content: Seq<char>,
        id: Seq<char>,
        name: Seq<char>,
        outcome: Result<Seq<char>, Seq<char>>,
    ) -> TurnView {
        TurnView {
            tools_used: self.tools_used.push(name),
            tool_results: self.tool_results.push(result_text(outcome)),
            messages: self.messages.push(plain_message("assistant"@, content)).push(
                tool_message(result_text(outcome), id),
            ).push(plain_message("user"@, steering())),
            ..self
        }
    }

    /// The iteration counter never passes the limit.
    pub open spec fn wf(self) -> bool {
        self.iteration <= self.max_iterations
    }
}

/// One round in which the model asked for a tool.
pub struct ToolRound {
    pub content: Seq<char>,
    pub id: Seq<char>,
    pub name: Seq<char>,
    pub outcome: Result<Seq<char>, Seq<char>>,
}

/// The state after as many rounds as `rounds` holds, each a model call whose
/// text asked for a tool.
pub open spec fn after_rounds(start: TurnView, rounds: Seq<ToolRound>) -> TurnView
    decreases rounds.len(),
{
    if rounds.len() == 0 {
        start
    } else {
        let round = rounds.last();
        after_rounds(start, rounds.drop_last()).advanced().tool_ran(
            round.content,
            round.id,
            round.name,
            round.outcome,
        )
    }
}

/// What the tools of `rounds` gave, as the model is told.
pub open spec fn round_results(rounds: Seq<ToolRound>) -> Seq<Seq<char>> {
    Seq::new(rounds.len(), |i: int| result_text(rounds[i].outcome))
}

/// A model that asks for no tool is answered at once: the turn makes one
/// model call and ends with the model's text, as it stands.
pub proof fn lemma_plain_text_ends_turn(
    messages: Seq<ChatMessageView>,
    max_iterations: nat,
    content: Seq<char>,
)
    requires
        max_iterations >= 1,
    ensures
        TurnView::start(messages, max_iterations).step() == StepView::CallModel(messages),
        TurnView::start(messages, max_iterations).advanced().iteration == 1,
        TurnView::start(messages, max_iterations).advanced().answered(content).step()
            == StepView::Done(OutcomeView::Answered(content)),
        TurnView::start(messages, max_iterations).advanced().answered(content).advanced().iteration
            == 1,
{
}

/// As long as fewer rounds than the limit have passed, each with a tool, the
/// turn goes on: it has made one model call per round and recorded one
/// result per round.
pub proof fn lemma_rounds_progress(
    messages: Seq<ChatMessageView>,
    max_iterations: nat,
    rounds: Seq<ToolRound>,
)
    requires
        rounds.len() <= max_iterations,
    ensures
        after_rounds(TurnView::start(messages, max_iterations), rounds).iteration == rounds.len(),
        after_rounds(TurnView::start(messages, max_iterations), rounds).max_iterations
            == max_iterations,
        after_rounds(TurnView::start(messages, max_iterations), rounds).answer is None,
        after_rounds(TurnView::start(messages, max_iterations), rounds).failure is None,
        after_rounds(TurnView::start(messages, max_iterations), rounds).tool_results
            == round_results(rounds),
        after_rounds(TurnView::start(messages, max_iterations), rounds).messages.len()
            == messages.len() + 3 * rounds.len(),
        rounds.len() < max_iterations ==> after_rounds(
            TurnView::start(messages, max_iterations),
            rounds,
        ).wants_model(),
    decreases rounds.len(),
{
    let start = TurnView::start(messages, max_iterations);
    if rounds.len() == 0 {
        assert(round_results(rounds) =~= Seq::<Seq<char>>::empty());
    } else {
        lemma_rounds_progress(messages, max_iterations, rounds.drop_last());
        assert(round_results(rounds) =~= round_results(rounds.drop_last()).push(
            result_text(rounds.last().outcome),
        ));
    }
}

/// A model that asks for a tool in every round uses up the limit: after as
/// many rounds as the limit allows, and not before, the turn is over, and the
/// answer is the results of the tools, one per line, in the order in which
/// the tools ran.
pub proof fn lemma_tools_every_round(
    messages: Seq<ChatMessageView>,
    max_iterations: nat,
    rounds: Seq<ToolRound>,
)
    requires
        max_iterations >= 1,
        rounds.len() == max_iterations,
    ensures
        after_rounds(TurnView::start(messages, max_iterations), rounds).iteration
            == max_iterations,
        after_rounds(TurnView::start(messages, max_iterations), rounds).step() == StepView::Done(
            OutcomeView::AnsweredFromToolResults(join(round_results(rounds), "\n"@)),
        ),
        forall|k: int|
            0 <= k < rounds.len() ==> (#[trigger] after_rounds(
                TurnView::start(messages, max_iterations),
                rounds.subrange(0, k),
            )).step() is CallModel,
{
    lemma_rounds_progress(messages, max_iterations, rounds);
    assert forall|k: int| 0 <= k < rounds.len() implies (#[trigger] after_rounds(
        TurnView::start(messages, max_iterations),
        rounds.subrange(0, k),
    )).step() is CallModel by {
        lemma_rounds_progress(messages, max_iterations, rounds.subrange(0, k));
    }
}

/// A tool that fails does not stop the turn: its error goes into the
/// conversation as the tool's message, behind `Error: `, and into the
/// results, and the limit of the turn is as it was.
pub proof fn lemma_failed_tool_is_fed_back(
    state: TurnView,
    content: Seq<char>,
    id: Seq<char>,
    name: Seq<char>,
    error: Seq<char>,
)
    ensures
        state.tool_ran(content, id, name, Err(error)).messages.len() == state.messages.len() + 3,
        state.tool_ran(content, id, name, Err(error)).messages[state.messages.len() as int + 1]
            == tool_message("Error: "@ + error, id),
        state.tool_ran(content, id, name, Err(error)).tool_results.last() == "Error: "@ + error,
        state.tool_ran(content, id, name, Err(error)).answer == state.answer,
        state.tool_ran(content, id, name, Err(error)).failure == state.failure,
        state.tool_ran(content, id, name, Err(error)).iteration == state.iteration,
        state.tool_ran(content, id, name, Err(error)).max_iterations == state.max_iterations,
{
}

/// A turn at its limit is over, whatever its tools gave.
pub proof fn lemma_limit_ends_turn(state: TurnView)
    requires
        state.iteration >= state.max_iterations,
    ensures
        !(state.step() is CallModel),
        state.failure is None ==> state.step() is Done,
        state.advanced() == state,
{
}

/// A model call that fails ends the turn: the error is handed out, no
/// further model call is asked for, and the conversation, the tools that ran
/// and their results are as they were.
pub proof fn lemma_failed_call_ends_turn(state: TurnView, error: Seq<char>)
    ensures
        state.failed(error).step() == StepView::Failed(error),
        state.failed(error).advanced() == state.failed(error),
        state.failed(error).messages == state.messages,
        state.failed(error).tools_used == state.tools_used,
        state.failed(error).tool_results == state.tool_results,
        state.failed(error).iteration == state.iteration,
{
}

/// The state of one turn.
pub struct AgentTurn {
    max_iterations: u32,
    iteration: u32,
    messages: Vec<ChatMessage>,
    tools_used: Vec<String>,
    tool_results: Vec<String>,
    answer: Option<String>,
    failure: Option<String>,
}

impl View for AgentTurn {
    type V = TurnView;

    closed spec fn view(&self) -> TurnView {
        TurnView {
            max_iterations: self.max_iterations as nat,
            iteration: self.iteration as nat,
            messages: message_views(self.messages@),
            tools_used: string_views(self.tools_used@),
            tool_results: string_views(self.tool_results@),
            answer: match self.answer {
                Some(text) => Some(text@),
                None => None,
            },
            failure: match self.failure {
                Some(error) => Some(error@),
                None => None,
            },
        }
    }
}

/// What the model is told of a tool's outcome.
pub fn tool_result_text(outcome: Result<String, String>) -> (r: String)
    ensures
        r@ == result_text(outcome_text(outcome)),
{
    match outcome {
        Ok(result) => result,
        Err(error) => {
            let mut text = String::from_str("Error: ");
            text.append(error.as_str());
            text
        },
    }
}

impl AgentTurn {
    /// A turn on the conversation `messages` that may call the model
    /// `max_iterations` times.
    pub fn new(messages: Vec<ChatMessage>, max_iterations: u32) -> (r: Self)
        ensures
            r@ == TurnView::start(message_views(messages@), max_iterations as nat),
    {
        let r = Self {
            max_iterations,
            iteration: 0,
            messages,
            tools_used: Vec::new(),
            tool_results: Vec::new(),
            answer: None,
            failure: None,
        };
        assert(r@.tools_used =~= Seq::empty());
        assert(r@.tool_results =~= Seq::empty());
        r
    }

    /// How many model calls the turn has made.
    pub fn iterations(&self) -> (r: u32)
        ensures
            r == self@.iteration,
    {
        self.iteration
    }

    /// The names of the tools that ran, in order.
    pub fn tools_used(&self) -> (r: Vec<String>)
        ensures
            string_views(r@) == self@.tools_used,
    {
        let mut r: Vec<String> = Vec::new();
        let mut i: usize = 0;
        while i < self.tools_used.len()
            invariant
                i <= self.tools_used@.len(),
                r@.len() == i,
                forall|j: int| 0 <= j < i ==> (#[trigger] r@[j])@ == self.tools_used@[j]@,
            decreases self.tools_used.len() - i,
        {
            r.push(self.tools_used[i].clone());
            i = i + 1;
        }
        assert(string_views(r@) =~= string_views(self.tools_used@));
        r
    }

    /// Says what is to be done, and counts the model call that it asks for.
    pub fn next(&mut self) -> (step: Step)
        ensures
            step@ == old(self)@.step(),
            final(self)@ == old(self)@.advanced(),
            old(self)@.wf() ==> final(self)@.wf(),
            step is CallModel ==> 1 <= final(self)@.iteration <= final(self)@.max_iterations,
    {
        match &self.failure {
            Some(error) => {
                return Step::Failed(error.clone());
            },
            None => {},
        }
        match &self.answer {
            Some(text) => Step::Done(TurnOutcome::Answered(text.clone())),
            None => {
                if self.iteration < self.max_iterations {
                    self.iteration = self.iteration + 1;
                    Step::CallModel(copy_messages(&self.messages))
                } else if self.tool_results.len() > 0 {
                    Step::Done(
                        TurnOutcome::AnsweredFromToolResults(
                            join_strings(&self.tool_results, "\n"),
                        ),
                    )
                } else {
                    Step::Done(TurnOutcome::NoResponse)
                }
            },
        }
    }

    /// Gives the turn up because a model call failed with `error`. The turn
    /// is over: `next` hands the error out and asks for no further call.
    pub fn fail(&mut self, error: &str)
        ensures
            final(self)@ == old(self)@.failed(error@),
    {
        self.failure = Some(String::from_str(error));
    }

    /// Takes the model's text for the answer.
    pub fn record_answer(&mut self, content: &str)
        ensures
            final(self)@ == old(self)@.answered(content@),
    {
        self.answer = Some(String::from_str(content));
    }

    /// Takes in what a tool gave for the invocation `call`, which the
    /// model's text `content` asked for.
    pub fn record_tool_result(
        &mut self,
        content: &str,
        call: &ToolInvocation,
        outcome: Result<String, String>,
    )
        ensures
            final(self)@ == old(self)@.tool_ran(
                content@,
                call.id@,
                call.name@,
                outcome_text(outcome),
            ),
    {
        let text = tool_result_text(outcome);
        let ghost before = self@;
        self.tools_used.push(call.name.clone());
        self.messages.push(ChatMessage::assistant(content));
        self.messages.push(ChatMessage::tool(text.as_str(), call.id.as_str()));
        self.messages.push(
            ChatMessage::user(
                "Tool executed. Continue with your response or use another tool if needed.",
            ),
        );
        self.tool_results.push(text);
        proof {
            let after = before.tool_ran(content@, call.id@, call.name@, outcome_text(outcome));
            assert(self@.tools_used =~= after.tools_used);
            assert(self@.tool_results =~= after.tool_results);
            assert(self@.messages =~= after.messages);
        }
    }

    /// Takes in the model's text. Where it asks for a registered tool, that
    /// tool runs once, on the arguments as the text gives them, and what it
    /// gives goes into the conversation, whatever it is; where the text asks
    /// for no tool, no tool runs and the text is the answer. `nanos` is the
    /// moment, from which the invocation gets its id.
    pub fn receive(&mut self, content: &str, tools: &ToolRegistry, nanos: i64)
        ensures
            match detected(content@, tools.infos()) {
                Some((name, arguments)) => exists|outcome: Result<Seq<char>, Seq<char>>|
                    {
                        &&& position(tools.infos(), name) is Some
                        &&& tools.tools()[position(tools.infos(), name)->0].may_give(
                            arguments,
                            outcome,
                        )
                        &&& final(self)@ == #[trigger] old(self)@.tool_ran(
                            content@,
                            call_id(nanos as int),
                            name,
                            outcome,
                        )
                    },
                None => final(self)@ == old(self)@.answered(content@),
            },
    {
        match detect_tool_call(content, tools, nanos) {
            Some(call) => {
                let outcome = tools.execute(call.name.as_str(), call.arguments.copy());
                let ghost known = outcome_text(outcome);
                self.record_tool_result(content, &call, outcome);
                assert(self@ == old(self)@.tool_ran(
                    content@,
                    call_id(nanos as int),
                    call.name@,
                    known,
                ));
            },
            None => {
                self.record_answer(content);
            },
        }
    }
}

} // verus!
