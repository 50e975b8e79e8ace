//! Tools: named capabilities that the model may invoke, and the registry
//! that holds them by name.

pub mod brave_search;
pub mod filesystem;
pub mod message;
pub mod pattern;
pub mod reminder;
pub mod schema;
pub mod shell;
pub mod spawn;
pub mod web;

pub use brave_search::BraveSearchTool;
pub use filesystem::{EditFileTool, ListDirTool, ReadFileTool, WriteFileTool};
pub use message::MessageTool;
pub use reminder::{Reminder, ReminderTool};
pub use shell::ShellTool;
pub use spawn::{SpawnTool, Subagent};
pub use web::WebFetchTool;

use crate::json::{Json, JsonValue};
use crate::providers::types::{FunctionDefinition, ToolDefinition};
use crate::text::same_text;
use vstd::prelude::*;
use vstd::string::StringExecFns;

verus! {

/// The outcome of running a tool, as mathematical data.
pub open spec fn outcome_text(r: Result<String, String>) -> Result<Seq<char>, Seq<char>> {
    match r {
        Ok(s) => Ok(s@),
        Err(e) => Err(e@),
    }
}

/// A named capability. The name is the key under which a registry holds the
/// tool; name, description and parameter schema never change. `execute`
/// runs the tool: it gives a result in text or an error in text, and neither
/// panics nor waits without end.
///
/// The four spec functions say what the four methods give. A tool that is
/// verified states its own. A tool in plain Rust cannot state any: the
/// bodies here let it be written at all, nothing that is proved reads them,
/// and the tool is trusted to give the same name, description and schema at
/// every call.
pub trait Tool: Send + Sync {
    /// The name that the tool gives itself.
    open spec fn told_name(&self) -> Seq<char> {
        arbitrary()
    }

    /// The description that the tool gives of itself.
    open spec fn told_description(&self) -> Seq<char> {
        arbitrary()
    }

    /// The schema that the tool gives for its arguments.
    open spec fn told_parameters(&self) -> JsonValue {
        arbitrary()
    }

    /// Whether running the tool on `args` may end in `outcome`. A tool that
    /// says nothing of its outcomes may give any.
    open spec fn may_give(&self, args: JsonValue, outcome: Result<Seq<char>, Seq<char>>) -> bool {
        true
    }

    fn name(&self) -> (r: &str)
        ensures
            r@ == self.told_name(),
    ;

    fn description(&self) -> (r: &str)
        ensures
            r@ == self.told_description(),
    ;

    fn parameters(&self) -> (r: Json)
        ensures
            r@ == self.told_parameters(),
    ;

    /// Runs the tool on `args`.
    fn execute(&self, args: Json) -> (r: Result<String, String>)
        ensures
            self.may_give(args@, outcome_text(r)),
    ;
}

/// What a tool tells of itself.
pub open spec fn told<T: Tool>(tool: T) -> ToolInfo {
    ToolInfo {
        name: tool.told_name(),
        description: tool.told_description(),
        parameters: tool.told_parameters(),
    }
}

/// What a registry shows of a tool: what the tool said of itself when it
/// was registered.
pub struct ToolInfo {
    pub name: Seq<char>,
    pub description: Seq<char>,
    pub parameters: JsonValue,
}

/// The first position in `infos` of a tool called `name`.
pub open spec fn position(infos: Seq<ToolInfo>, name: Seq<char>) -> Option<int>
    decreases infos.len(),
{
    if infos.len() == 0 {
        None
    } else {
        match position(infos.drop_last(), name) {
            Some(i) => Some(i),
            None => if infos.last().name == name {
                Some(infos.len() - 1)
            } else {
                None
            },
        }
    }
}

/// The place that `upsert` gives to a tool called `name`: that of the tool
/// which has the name, or the end.
pub open spec fn place(infos: Seq<ToolInfo>, name: Seq<char>) -> int {
    match position(infos, name) {
        Some(i) => i,
        None => infos.len() as int,
    }
}

/// `infos` with `info` in the place of the tool of the same name, or at the
/// end where there is none.
pub open spec fn upsert(infos: Seq<ToolInfo>, info: ToolInfo) -> Seq<ToolInfo> {
    match position(infos, info.name) {
        Some(i) => infos.update(i, info),
        None => infos.push(info),
    }
}

/// No two tools have the same name.
pub open spec fn distinct_names(infos: Seq<ToolInfo>) -> bool {
    forall|i: int, j: int| 0 <= i < j < infos.len() ==> infos[i].name != infos[j].name
}

/// How many tools of `infos` are called `name`.
pub open spec fn count_named(infos: Seq<ToolInfo>, name: Seq<char>) -> nat
    decreases infos.len(),
{
    if infos.len() == 0 {
        0
    } else {
        count_named(infos.drop_last(), name) + if infos.last().name == name {
            1nat
        } else {
            0nat
        }
    }
}

/// What `position` finds is the first tool of that name.
pub proof fn lemma_position(infos: Seq<ToolInfo>, name: Seq<char>)
    ensures
        match position(infos, name) {
            Some(i) => 0 <= i < infos.len() && infos[i].name == name && forall|j: int|
                0 <= j < i ==> infos[j].name != name,
            None => forall|j: int| 0 <= j < infos.len() ==> infos[j].name != name,
        },
    decreases infos.len(),
{
    if infos.len() > 0 {
        let head = infos.drop_last();
        lemma_position(head, name);
        assert forall|j: int| 0 <= j < head.len() implies head[j] == infos[j] by {}
    }
}

/// A tool of the name with none of the name before it is what `position`
/// finds.
pub proof fn lemma_position_is(infos: Seq<ToolInfo>, name: Seq<char>, p: int)
    requires
        0 <= p < infos.len(),
        infos[p].name == name,
        forall|j: int| 0 <= j < p ==> infos[j].name != name,
    ensures
        position(infos, name) == Some(p),
{
    lemma_position(infos, name);
}

/// Among distinct names, a name is counted once where it occurs and never
/// where it does not.
pub proof fn lemma_count_named(infos: Seq<ToolInfo>, name: Seq<char>)
    requires
        distinct_names(infos),
    ensures
        count_named(infos, name) == if position(infos, name) is Some {
            1nat
        } else {
            0nat
        },
    decreases infos.len(),
{
    if infos.len() > 0 {
        let head = infos.drop_last();
        lemma_count_named(head, name);
        lemma_position(head, name);
        if infos.last().name == name && position(head, name) is Some {
            let i = position(head, name)->0;
            assert(infos[i].name == head[i].name);
        }
    }
}

/// After `upsert` the tool stands at its place under its name, every other
/// name is found where it was, and distinct names stay distinct.
pub proof fn lemma_upsert(infos: Seq<ToolInfo>, info: ToolInfo)
    ensures
        0 <= place(infos, info.name) < upsert(infos, info).len(),
        position(upsert(infos, info), info.name) == Some(place(infos, info.name)),
        upsert(infos, info)[place(infos, info.name)] == info,
        forall|name: Seq<char>|
            name != info.name ==> #[trigger] position(upsert(infos, info), name) == position(
                infos,
                name,
            ),
        distinct_names(infos) ==> distinct_names(upsert(infos, info)),
{
    let after = upsert(infos, info);
    let k = place(infos, info.name);
    lemma_position(infos, info.name);
    assert(after[k] == info);
    lemma_position_is(after, info.name, k);
    assert forall|name: Seq<char>| name != info.name implies #[trigger] position(after, name)
        == position(infos, name) by {
        lemma_position(infos, name);
        match position(infos, name) {
            Some(q) => {
                assert(after[q] == infos[q]);
                assert forall|j: int| 0 <= j < q implies after[j].name != name by {
                    if j != k {
                        assert(after[j] == infos[j]);
                    }
                }
                lemma_position_is(after, name, q);
            },
            None => {
                lemma_position(after, name);
                if position(after, name) is Some {
                    let q = position(after, name)->0;
                    if q != k {
                        assert(after[q] == infos[q]);
                    }
                }
            },
        }
    }
    if distinct_names(infos) {
        assert forall|i: int, j: int| 0 <= i < j < after.len() implies after[i].name
            != after[j].name by {
            if i != k && j != k {
                assert(after[i] == infos[i] && after[j] == infos[j]);
            } else if i == k {
                if j < infos.len() {
                    assert(after[j] == infos[j]);
                }
            } else {
                assert(after[i] == infos[i]);
            }
        }
    }
}

/// Registering under a name that is taken replaces: the registry is no
/// longer, it holds exactly one tool of that name, and what it shows of
/// that tool is what was registered last.
pub proof fn lemma_register_replaces(infos: Seq<ToolInfo>, info: ToolInfo)
    requires
        distinct_names(infos),
        position(infos, info.name) is Some,
    ensures
        upsert(infos, info).len() == infos.len(),
        count_named(upsert(infos, info), info.name) == 1,
        forall|i: int|
            0 <= i < infos.len() && (#[trigger] upsert(infos, info)[i]).name == info.name
                ==> upsert(infos, info)[i] == info,
{
    let after = upsert(infos, info);
    lemma_position(infos, info.name);
    lemma_upsert(infos, info);
    lemma_count_named(after, info.name);
    let p = position(infos, info.name)->0;
    assert forall|i: int| 0 <= i < infos.len() && (#[trigger] after[i]).name
        == info.name implies after[i] == info by {
        if i != p {
            assert(after[p].name == info.name);
        }
    }
}

/// The error of a lookup that found no tool.
pub open spec fn not_found(name: Seq<char>) -> Seq<char> {
    "Tool not found: "@ + name
}

/// Whether `definition` is the catalogue entry of `info`.
pub open spec fn defines(definition: ToolDefinition, info: ToolInfo) -> bool {
    &&& definition.tool_type@ == "function"@
    &&& definition.function.name@ == info.name
    &&& definition.function.description@ == info.description
    &&& definition.function.parameters@ == info.parameters
}

struct Slot<T> {
    name: String,
    description: String,
    parameters: Json,
    tool: T,
}

impl<T> Slot<T> {
    spec fn info(self) -> ToolInfo {
        ToolInfo { name: self.name@, description: self.description@, parameters: self.parameters@ }
    }
}

/// The tools of an assistant, each under its name. Registering a name again
/// replaces the tool that had it.
pub struct ToolRegistry {
    slots: Vec<Slot<Box<dyn Tool>>>,
}

impl Default for ToolRegistry {
    fn default() -> (r: Self)
        ensures
            r.infos() == Seq::<ToolInfo>::empty(),
            r.wf(),
    {
        Self::new()
    }
}

impl ToolRegistry {
    /// What the registry shows of its tools, in the order in which their
    /// names were first registered.
    pub closed spec fn infos(&self) -> Seq<ToolInfo> {
        Seq::new(self.slots@.len(), |i: int| self.slots@[i].info())
    }

    /// The tools themselves, each at the place of what is shown of it.
    pub closed spec fn tools(&self) -> Seq<Box<dyn Tool>> {
        Seq::new(self.slots@.len(), |i: int| self.slots@[i].tool)
    }

    /// There is a tool for everything that is shown.
    pub proof fn lemma_tools_len(&self)
        ensures
            self.tools().len() == self.infos().len(),
    {
    }

    /// Whether a tool is registered under `name`.
    pub open spec fn has(&self, name: Seq<char>) -> bool {
        position(self.infos(), name) is Some
    }

    /// No two tools of the registry have the same name. Every registry made
    /// by `new` and filled by `register` is so.
    pub open spec fn wf(&self) -> bool {
        distinct_names(self.infos())
    }

    /// A registry without tools.
    pub fn new() -> (r: Self)
        ensures
            r.infos() == Seq::<ToolInfo>::empty(),
            r.wf(),
    {
        let r = Self { slots: Vec::new() };
        assert(r.infos() =~= Seq::<ToolInfo>::empty());
        r
    }

    fn find(&self, name: &str) -> (r: Option<usize>)
        ensures
            match r {
                Some(i) => position(self.infos(), name@) == Some(i as int) && i
                    < self.slots@.len(),
                None => position(self.infos(), name@) is None,
            },
    {
        let ghost infos = self.infos();
        let mut i: usize = 0;
        while i < self.slots.len()
            invariant
                i <= self.slots@.len(),
                infos == self.infos(),
                forall|j: int| 0 <= j < i ==> infos[j].name != name@,
            decreases self.slots.len() - i,
        {
            if same_text(self.slots[i].name.as_str(), name) {
                proof {
                    assert(infos[i as int].name == name@);
                    lemma_position_is(infos, name@, i as int);
                }
                return Some(i);
            }
            i = i + 1;
        }
        proof {
            lemma_position(infos, name@);
        }
        None
    }

    fn put(&mut self, slot: Slot<Box<dyn Tool>>)
        ensures
            final(self).infos() == upsert(old(self).infos(), slot.info()),
            final(self).tools()[place(old(self).infos(), slot.name@)] == slot.tool,
            forall|i: int|
                0 <= i < old(self).infos().len() && i != place(old(self).infos(), slot.name@)
                    ==> #[trigger] final(self).tools()[i] == old(self).tools()[i],
    {
        let ghost before = self.infos();
        let ghost held = self.slots@;
        let ghost info = slot.info();
        match self.find(slot.name.as_str()) {
            Some(i) => {
                self.slots.set(i, slot);
                assert(self.infos() =~= before.update(i as int, info));
                assert(self.slots@[i as int] == slot);
                assert forall|k: int| 0 <= k < before.len() && k != i implies #[trigger] self.tools()[k]
                    == old(self).tools()[k] by {
                    assert(self.slots@[k] == held[k]);
                }
            },
            None => {
                self.slots.push(slot);
                assert(self.infos() =~= before.push(info));
                assert(self.slots@[before.len() as int] == slot);
                assert forall|k: int| 0 <= k < before.len() implies #[trigger] self.tools()[k]
                    == old(self).tools()[k] by {
                    assert(self.slots@[k] == held[k]);
                }
            },
        }
    }

    /// Registers `tool` under `name`, with the description and the schema
    /// given. A tool that had the name is replaced by `tool`, at its place;
    /// a new name comes last. Every other tool, and what the registry shows
    /// of it, stays as it was.
    pub fn register_as(
        &mut self,
        name: String,
        description: String,
        parameters: Json,
        tool: Box<dyn Tool>,
    )
        ensures
            final(self).infos() == upsert(
                old(self).infos(),
                (ToolInfo { name: name@, description: description@, parameters: parameters@ }),
            ),
            old(self).wf() ==> final(self).wf(),
            final(self).tools()[place(old(self).infos(), name@)] == tool,
            forall|i: int|
                0 <= i < old(self).infos().len() && i != place(old(self).infos(), name@)
                    ==> #[trigger] final(self).tools()[i] == old(self).tools()[i],
    {
        proof {
            lemma_upsert(
                self.infos(),
                ToolInfo { name: name@, description: description@, parameters: parameters@ },
            );
        }
        let slot = Slot { name, description, parameters, tool };
        self.put(slot);
    }

    /// Registers a tool under the name that it gives itself, with the
    /// description and the schema that it gives. A tool that had the name is
    /// replaced; every other tool, and what the registry shows of it, stays
    /// as it was.
    pub fn register<T: Tool + 'static>(&mut self, tool: T)
        ensures
            final(self).infos() == upsert(old(self).infos(), told(tool)),
            old(self).wf() ==> final(self).wf(),
            forall|i: int|
                0 <= i < old(self).infos().len() && i != place(old(self).infos(), tool.told_name())
                    ==> #[trigger] final(self).tools()[i] == old(self).tools()[i],
    {
        let name = String::from_str(tool.name());
        let description = String::from_str(tool.description());
        let parameters = tool.parameters();
        self.register_as(name, description, parameters, Box::new(tool));
    }

    /// Registers a boxed tool, as `register` does: the registry then holds
    /// `tool` under the name that it gives itself.
    pub fn register_boxed(&mut self, tool: Box<dyn Tool>)
        ensures
            final(self).infos() == upsert(
                old(self).infos(),
                (ToolInfo {
                    name: tool.told_name(),
                    description: tool.told_description(),
                    parameters: tool.told_parameters(),
                }),
            ),
            old(self).wf() ==> final(self).wf(),
            final(self).tools()[place(old(self).infos(), tool.told_name())] == tool,
            forall|i: int|
                0 <= i < old(self).infos().len() && i != place(old(self).infos(), tool.told_name())
                    ==> #[trigger] final(self).tools()[i] == old(self).tools()[i],
    {
        let name = String::from_str(tool.name());
        let description = String::from_str(tool.description());
        let parameters = tool.parameters();
        proof {
            lemma_upsert(
                self.infos(),
                ToolInfo {
                    name: tool.told_name(),
                    description: tool.told_description(),
                    parameters: tool.told_parameters(),
                },
            );
        }
        let slot = Slot { name, description, parameters, tool };
        self.put(slot);
    }

    /// Whether a tool is registered under `name`.
    pub fn contains(&self, name: &str) -> (r: bool)
        ensures
            r == self.has(name@),
    {
        self.find(name).is_some()
    }

    /// The tool registered under `name`.
    pub fn get(&self, name: &str) -> (r: Option<&dyn Tool>)
        ensures
            r is Some <==> self.has(name@),
            r is Some ==> r->0 == &*self.tools()[position(self.infos(), name@)->0],
    {
        match self.find(name) {
            Some(i) => {
                let found = Some(&*self.slots[i].tool);
                assert(found->0 == &*self.tools()[i as int]);
                found
            },
            None => None,
        }
    }

    /// How many tools are registered.
    pub fn len(&self) -> (r: usize)
        ensures
            r == self.infos().len(),
    {
        self.slots.len()
    }

    /// The catalogue: one definition for each registered tool.
    pub fn get_definitions(&self) -> (r: Vec<ToolDefinition>)
        ensures
            r@.len() == self.infos().len(),
            forall|i: int| 0 <= i < r@.len() ==> defines(#[trigger] r@[i], self.infos()[i]),
    {
        let mut r: Vec<ToolDefinition> = Vec::new();
        let mut i: usize = 0;
        while i < self.slots.len()
            invariant
                i <= self.slots@.len(),
                r@.len() == i,
                forall|j: int| 0 <= j < i ==> defines(#[trigger] r@[j], self.infos()[j]),
            decreases self.slots.len() - i,
        {
            let slot = &self.slots[i];
            r.push(
                ToolDefinition {
                    tool_type: String::from_str("function"),
                    function: FunctionDefinition {
                        name: slot.name.clone(),
                        description: slot.description.clone(),
                        parameters: slot.parameters.copy(),
                    },
                },
            );
            i = i + 1;
        }
        r
    }

    /// Runs the tool registered under `name` and hands back what it
    /// returned, unchanged. Where no tool has the name, no tool runs and the
    /// error says so.
    pub fn execute(&self, name: &str, args: Json) -> (r: Result<String, String>)
        ensures
            match position(self.infos(), name@) {
                Some(i) => self.tools()[i].may_give(args@, outcome_text(r)),
                None => outcome_text(r) == Err::<Seq<char>, Seq<char>>(not_found(name@)),
            },
    {
        match self.find(name) {
            Some(i) => {
                let ghost given = args@;
                let r = self.slots[i].tool.execute(args);
                assert(self.slots@[i as int].tool.may_give(given, outcome_text(r)));
                assert(self.tools()[i as int].may_give(given, outcome_text(r)));
                r
            },
            None => {
                let mut message = String::from_str("Tool not found: ");
                message.append(name);
                Err(message)
            },
        }
    }
}

} // verus!
