//! Where the assistant keeps what it remembers, and how it writes it down.

use crate::text::{chars_of, has_prefix, starts_with, string_of, trim, trim_chars};
use vstd::prelude::*;
use vstd::string::StringExecFns;

verus! {

/// The files of the assistant's memory under a workspace.
#[derive(Debug)]
pub struct MemoryStore {
    pub memory_dir: String,
    pub memory_file: String,
    pub history_file: String,
}

/// The long-term memory as a section of the system prompt: nothing where
/// there is no memory.
pub open spec fn memory_section(long_term: Seq<char>) -> Seq<char> {
    if long_term.len() == 0 {
        Seq::empty()
    } else {
        "## Long-term Memory\n\n"@ + long_term
    }
}

/// An entry as it is written to the history log: trimmed, with an empty line
/// behind it.
pub open spec fn history_record(entry: Seq<char>) -> Seq<char> {
    trim(entry) + "\n\n"@
}

impl MemoryStore {
    /// The memory of the workspace `workspace`: the directory `memory` in it,
    /// with the files `MEMORY.md` and `HISTORY.md`.
    pub fn new(workspace: &str) -> (r: Self)
        ensures
            r.memory_dir@ == workspace@ + "/memory"@,
            r.memory_file@ == workspace@ + "/memory"@ + "/MEMORY.md"@,
            r.history_file@ == workspace@ + "/memory"@ + "/HISTORY.md"@,
    {
        let mut memory_dir = String::from_str(workspace);
        memory_dir.append("/memory");
        let mut memory_file = memory_dir.clone();
        memory_file.append("/MEMORY.md");
        let mut history_file = memory_dir.clone();
        history_file.append("/HISTORY.md");
        Self { memory_dir, memory_file, history_file }
    }

    /// The long-term memory `long_term` as a section of the system prompt.
    pub fn get_memory_context(&self, long_term: &str) -> (r: String)
        ensures
            r@ == memory_section(long_term@),
    {
        if long_term.unicode_len() == 0 {
            String::new()
        } else {
            let mut section = String::from_str("## Long-term Memory\n\n");
            section.append(long_term);
            section
        }
    }

    /// `entry` as it is written to the history log.
    pub fn history_record(&self, entry: &str) -> (r: String)
        ensures
            r@ == history_record(entry@),
    {
        let mut record = string_of(&trim_chars(&chars_of(entry)));
        record.append("\n\n");
        record
    }

    /// Whether a history log of `size` bytes is to be rotated at the limit
    /// `max_size`.
    pub fn needs_rotation(&self, size: u64, max_size: u64) -> (r: bool)
        ensures
            r == (size > max_size),
    {
        size > max_size
    }

    /// Whether a file of the memory directory called `file_name` is cleared
    /// away with the old backups: its name begins with `HISTORY.backup`.
    pub fn is_old_backup(&self, file_name: &str) -> (r: bool)
        ensures
            r == starts_with(file_name@, "HISTORY.backup"@),
    {
        has_prefix(&chars_of(file_name), &chars_of("HISTORY.backup"))
    }

    /// The file to which the history log is moved when it is rotated.
    pub fn backup_file(&self) -> (r: String)
        ensures
            r@ == self.history_file@ + ".backup"@,
    {
        let mut path = self.history_file.clone();
        path.append(".backup");
        path
    }
}

} // verus!
