//! The spawn tool: tasks handed to subagents.

use crate::agent::tools::outcome_text;
use crate::agent::tools::schema::{
    property, property_value, required_text, schema, schema_value, text_arg,
};
use crate::json::{entry_views, lemma_entry_views, Json, JsonValue};
use crate::text::{same_text, string_views};
use vstd::prelude::*;
use vstd::string::StringExecFns;

verus! {

/// A task in the hands of a subagent.
#[derive(Debug)]
pub struct Subagent {
    pub name: String,
    pub task: String,
    pub status: String,
}

/// A [`Subagent`] as mathematical data.
pub struct SubagentView {
    pub name: Seq<char>,
    pub task: Seq<char>,
    pub status: Seq<char>,
}

impl View for Subagent {
    type V = SubagentView;

    open spec fn view(&self) -> SubagentView {
        SubagentView { name: self.name@, task: self.task@, status: self.status@ }
    }
}

/// Hands tasks to subagents and keeps them by name.
#[derive(Debug)]
pub struct SpawnTool {
    pub subagents: Vec<Subagent>,
    pub channel: Option<String>,
    pub chat_id: Option<String>,
}

/// The views of a list of subagents.
pub open spec fn subagent_views(agents: Seq<Subagent>) -> Seq<SubagentView> {
    Seq::new(agents.len(), |i: int| agents[i]@)
}

/// The first position of a subagent called `name`, or the length where
/// there is none.
pub open spec fn slot_of(agents: Seq<SubagentView>, name: Seq<char>) -> int
    decreases agents.len(),
{
    if agents.len() == 0 {
        0
    } else if agents[0].name == name {
        0
    } else {
        1 + slot_of(agents.drop_first(), name)
    }
}

/// `agents` with `agent` in the place of the subagent of the same name, or
/// at the end where there is none.
pub open spec fn with_subagent(agents: Seq<SubagentView>, agent: SubagentView) -> Seq<
    SubagentView,
> {
    if slot_of(agents, agent.name) < agents.len() {
        agents.update(slot_of(agents, agent.name), agent)
    } else {
        agents.push(agent)
    }
}

/// The subagent that the arguments ask for: pending, with the name and the
/// task given.
pub open spec fn requested(args: JsonValue) -> Result<SubagentView, Seq<char>> {
    match required_text(args, "name"@, "Missing name parameter"@) {
        Err(e) => Err(e),
        Ok(name) => match required_text(args, "task"@, "Missing task parameter"@) {
            Err(e) => Err(e),
            Ok(task) => Ok(SubagentView { name, task, status: "pending"@ }),
        },
    }
}

/// What the tool says of a subagent that was spawned.
pub open spec fn spawned(agent: SubagentView) -> Seq<char> {
    "Subagent '"@ + agent.name + "' spawned with task: "@ + agent.task
}

impl Default for SpawnTool {
    fn default() -> (r: Self)
        ensures
            r.subagents@ == Seq::<Subagent>::empty(),
            r.channel is None,
            r.chat_id is None,
    {
        Self::new()
    }
}

impl SpawnTool {
    /// A tool without subagents, set to no chat.
    pub fn new() -> (r: Self)
        ensures
            r.subagents@ == Seq::<Subagent>::empty(),
            r.channel is None,
            r.chat_id is None,
    {
        Self { subagents: Vec::new(), channel: None, chat_id: None }
    }

    /// Sets the channel and the chat on whose behalf tasks are spawned.
    pub fn set_context(&mut self, channel: String, chat_id: String)
        ensures
            final(self).channel == Some(channel),
            final(self).chat_id == Some(chat_id),
            final(self).subagents == old(self).subagents,
    {
        self.channel = Some(channel);
        self.chat_id = Some(chat_id);
    }

    pub fn name(&self) -> (r: &'static str)
        ensures
            r@ == "spawn"@,
    {
        "spawn"
    }

    pub fn description(&self) -> (r: &'static str)
        ensures
            r@ == "Spawn a background subagent to handle a task"@,
    {
        "Spawn a background subagent to handle a task"
    }

    pub fn parameters(&self) -> (r: Json)
        ensures
            r@ == schema_value(
                seq![
                    ("name"@, property_value("string"@, "Name for the subagent"@)),
                    ("task"@, property_value("string"@, "Task description for the subagent"@)),
                ],
                seq!["name"@, "task"@],
            ),
    {
        let mut properties: Vec<(String, Json)> = Vec::new();
        properties.push((String::from_str("name"), property("string", "Name for the subagent")));
        properties.push(
            (String::from_str("task"), property("string", "Task description for the subagent")),
        );
        let mut required: Vec<String> = Vec::new();
        required.push(String::from_str("name"));
        required.push(String::from_str("task"));
        proof {
            lemma_entry_views(properties@);
            assert(entry_views(properties@) =~= seq![
                ("name"@, property_value("string"@, "Name for the subagent"@)),
                ("task"@, property_value("string"@, "Task description for the subagent"@)),
            ]);
            assert(string_views(required@) =~= seq!["name"@, "task"@]);
        }
        schema(properties, required)
    }

    fn find(&self, name: &str) -> (r: usize)
        ensures
            r == slot_of(subagent_views(self.subagents@), name@),
            r <= self.subagents@.len(),
    {
        let ghost all = subagent_views(self.subagents@);
        let mut i: usize = 0;
        assert(all.subrange(0, all.len() as int) == all);
        while i < self.subagents.len()
            invariant
                i <= self.subagents@.len(),
                all == subagent_views(self.subagents@),
                slot_of(all, name@) == i + slot_of(all.subrange(i as int, all.len() as int), name@),
            decreases self.subagents.len() - i,
        {
            let ghost rest = all.subrange(i as int, all.len() as int);
            proof {
                assert(rest[0] == self.subagents@[i as int]@);
                assert(rest.drop_first() == all.subrange(i + 1, all.len() as int));
            }
            if same_text(self.subagents[i].name.as_str(), name) {
                return i;
            }
            i = i + 1;
        }
        i
    }

    /// Spawns the subagent that the arguments ask for. A subagent that had
    /// the name is replaced.
    pub fn spawn(&mut self, args: &Json) -> (r: Result<String, String>)
        ensures
            match requested(args@) {
                Ok(agent) => outcome_text(r) == Ok::<Seq<char>, Seq<char>>(spawned(agent))
                    && subagent_views(final(self).subagents@) == with_subagent(
                    subagent_views(old(self).subagents@),
                    agent,
                ),
                Err(e) => outcome_text(r) == Err::<Seq<char>, Seq<char>>(e) && *final(self)
                    == *old(self),
            },
            final(self).channel == old(self).channel,
            final(self).chat_id == old(self).chat_id,
    {
        let name = match text_arg(args, "name", "Missing name parameter") {
            Ok(name) => name,
            Err(e) => {
                return Err(e);
            },
        };
        let task = match text_arg(args, "task", "Missing task parameter") {
            Ok(task) => task,
            Err(e) => {
                return Err(e);
            },
        };
        let mut message = String::from_str("Subagent '");
        message.append(name.as_str());
        message.append("' spawned with task: ");
        message.append(task.as_str());
        let ghost before = subagent_views(self.subagents@);
        let at = self.find(name.as_str());
        let agent = Subagent { name, task, status: String::from_str("pending") };
        let ghost view = agent@;
        if at < self.subagents.len() {
            self.subagents.set(at, agent);
            assert(subagent_views(self.subagents@) =~= before.update(at as int, view));
        } else {
            self.subagents.push(agent);
            assert(subagent_views(self.subagents@) =~= before.push(view));
        }
        Ok(message)
    }
}

} // verus!
