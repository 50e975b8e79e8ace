//! The history of a session: what the user said and what the assistant
//! answered, turn by turn, and when the oldest of it goes to durable memory.

use crate::text::string_views;
use vstd::prelude::*;
use vstd::string::StringExecFns;

verus! {

/// Who spoke.
#[derive(Debug, Clone, Copy, PartialEq, Eq, Structural)]
pub enum Role {
    User,
    Assistant,
}

/// What was said in a turn by one side.
#[derive(Debug)]
pub struct HistoryEntry {
    pub role: Role,
    pub content: String,
    pub tools_used: Vec<String>,
}

/// A [`HistoryEntry`] as mathematical data.
pub struct EntryView {
    pub role: Role,
    pub content: Seq<char>,
    pub tools_used: Seq<Seq<char>>,
}

impl View for HistoryEntry {
    type V = EntryView;

    open spec fn view(&self) -> EntryView {
        EntryView {
            role: self.role,
            content: self.content@,
            tools_used: string_views(self.tools_used@),
        }
    }
}

/// The views of a list of entries.
pub open spec fn entry_views(entries: Seq<HistoryEntry>) -> Seq<EntryView> {
    Seq::new(entries.len(), |i: int| entries[i]@)
}

/// The name of a role in the history log.
pub open spec fn role_label(role: Role) -> Seq<char> {
    match role {
        Role::User => "USER"@,
        Role::Assistant => "ASSISTANT"@,
    }
}

/// The line of the history log for an entry written at `timestamp`.
pub open spec fn history_line(timestamp: Seq<char>, entry: EntryView) -> Seq<char> {
    "["@ + timestamp + "] "@ + role_label(entry.role) + ": "@ + entry.content
}

/// Whether `line` is the line of the history log for an entry, written at
/// some moment.
pub open spec fn is_history_line(line: Seq<char>, entry: EntryView) -> bool {
    exists|timestamp: Seq<char>| line == history_line(timestamp, entry)
}

/// Whether a history of `len` entries is due for consolidation at the
/// window `window`: it is longer than twice the window.
pub open spec fn is_due(len: nat, window: nat) -> bool {
    len > 2 * window
}

/// How many of the oldest entries of a history of `len` entries go to
/// durable memory at the window `window`: all but half a window, and none
/// of a history shorter than the window.
pub open spec fn aged(len: nat, window: nat) -> nat {
    if len < window {
        0
    } else {
        (len - window / 2) as nat
    }
}

/// What a turn adds to a history: what the user said, then what the
/// assistant answered and with which tools.
pub open spec fn turn_entries(
    said: Seq<char>,
    answer: Seq<char>,
    tools_used: Seq<Seq<char>>,
) -> Seq<EntryView> {
    seq![
        EntryView { role: Role::User, content: said, tools_used: Seq::empty() },
        EntryView { role: Role::Assistant, content: answer, tools_used },
    ]
}

/// A history that was due holds, once its aged entries are forgotten, half a
/// window of entries, and is no longer due.
pub proof fn lemma_forgetting_settles(len: nat, window: nat)
    requires
        is_due(len, window),
    ensures
        len - aged(len, window) == window / 2,
        !is_due((len - aged(len, window)) as nat, window),
{
}

/// The history of one session, oldest entry first.
pub struct SessionHistory {
    entries: Vec<HistoryEntry>,
}

impl View for SessionHistory {
    type V = Seq<EntryView>;

    closed spec fn view(&self) -> Seq<EntryView> {
        entry_views(self.entries@)
    }
}

/// `chrono::Local::now` and `DateTime::format` with `%Y-%m-%d %H:%M`: the
/// local date and time of the moment, to the minute. It is the clock's
/// answer in the machine's time zone, so nothing is promised of it.
#[verifier::external_body]
fn local_minute() -> String {
    chrono::Local::now().format("%Y-%m-%d %H:%M").to_string()
}

impl SessionHistory {
    /// An empty history.
    pub fn new() -> (r: Self)
        ensures
            r@ == Seq::<EntryView>::empty(),
    {
        let r = Self { entries: Vec::new() };
        assert(r@ =~= Seq::<EntryView>::empty());
        r
    }

    /// How many entries the history holds.
    pub fn len(&self) -> (r: usize)
        ensures
            r == self@.len(),
    {
        self.entries.len()
    }

    /// The entry at `index`.
    pub fn entry(&self, index: usize) -> (r: &HistoryEntry)
        requires
            index < self@.len(),
        ensures
            r@ == self@[index as int],
    {
        &self.entries[index]
    }

    /// Adds a turn: what the user said, then what the assistant answered.
    pub fn record_turn(&mut self, said: &str, answer: &str, tools_used: Vec<String>)
        ensures
            final(self)@ == old(self)@ + turn_entries(said@, answer@, string_views(tools_used@)),
    {
        let ghost before = self@;
        let user = HistoryEntry {
            role: Role::User,
            content: String::from_str(said),
            tools_used: Vec::new(),
        };
        assert(user@.tools_used =~= Seq::empty());
        self.entries.push(user);
        self.entries.push(
            HistoryEntry { role: Role::Assistant, content: String::from_str(answer), tools_used },
        );
        assert(self@ =~= before + turn_entries(said@, answer@, string_views(tools_used@)));
    }

    /// Whether the history is due for consolidation at the window
    /// `memory_window`.
    pub fn needs_consolidation(&self, memory_window: u32) -> (r: bool)
        ensures
            r == is_due(self@.len(), memory_window as nat),
    {
        let len: u64 = self.entries.len() as u64;
        let window: u64 = memory_window as u64;
        len > 2 * window
    }

    /// How many of the oldest entries go to durable memory at the window
    /// `memory_window`.
    pub fn aged_count(&self, memory_window: u32) -> (r: usize)
        ensures
            r == aged(self@.len(), memory_window as nat),
            r <= self@.len(),
    {
        let window: usize = memory_window as usize;
        if self.entries.len() < window {
            0
        } else {
            self.entries.len() - window / 2
        }
    }

    /// The line of the history log for the entry at `index`, written at
    /// `timestamp`.
    pub fn line_at(&self, index: usize, timestamp: &str) -> (r: String)
        requires
            index < self@.len(),
        ensures
            r@ == history_line(timestamp@, self@[index as int]),
    {
        let entry = &self.entries[index];
        let mut line = String::from_str("[");
        line.append(timestamp);
        line.append("] ");
        match entry.role {
            Role::User => line.append("USER"),
            Role::Assistant => line.append("ASSISTANT"),
        }
        line.append(": ");
        line.append(entry.content.as_str());
        line
    }

    /// The lines of the history log for the aged entries, oldest first, all
    /// written at `timestamp`.
    pub fn consolidation_lines(&self, memory_window: u32, timestamp: &str) -> (r: Vec<String>)
        ensures
            r@.len() == aged(self@.len(), memory_window as nat),
            forall|i: int|
                0 <= i < r@.len() ==> (#[trigger] r@[i])@ == history_line(timestamp@, self@[i]),
    {
        let count = self.aged_count(memory_window);
        let mut r: Vec<String> = Vec::new();
        let mut i: usize = 0;
        while i < count
            invariant
                i <= count <= self@.len(),
                r@.len() == i,
                forall|j: int|
                    0 <= j < i ==> (#[trigger] r@[j])@ == history_line(timestamp@, self@[j]),
            decreases count - i,
        {
            r.push(self.line_at(i, timestamp));
            i = i + 1;
        }
        r
    }

    /// The lines of the history log for the aged entries, oldest first, each
    /// with the local time at which it was made.
    pub fn consolidate(&self, memory_window: u32) -> (r: Vec<String>)
        ensures
            r@.len() == aged(self@.len(), memory_window as nat),
            forall|i: int| 0 <= i < r@.len() ==> is_history_line((#[trigger] r@[i])@, self@[i]),
    {
        let count = self.aged_count(memory_window);
        let mut r: Vec<String> = Vec::new();
        let mut i: usize = 0;
        while i < count
            invariant
                i <= count <= self@.len(),
                r@.len() == i,
                forall|j: int| 0 <= j < i ==> is_history_line((#[trigger] r@[j])@, self@[j]),
            decreases count - i,
        {
            let timestamp = local_minute();
            let line = self.line_at(i, timestamp.as_str());
            assert(is_history_line(line@, self@[i as int]));
            r.push(line);
            i = i + 1;
        }
        r
    }

    /// Forgets the aged entries, once they are in durable memory: the rest
    /// stays, in order.
    pub fn forget_consolidated(&mut self, memory_window: u32)
        ensures
            final(self)@ == old(self)@.subrange(
                aged(old(self)@.len(), memory_window as nat) as int,
                old(self)@.len() as int,
            ),
    {
        let count = self.aged_count(memory_window);
        let ghost before = self@;
        let rest = self.entries.split_off(count);
        self.entries = rest;
        assert(self@ =~= before.subrange(count as int, before.len() as int));
    }
}

} // verus!
