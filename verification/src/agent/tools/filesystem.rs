//! The file tools: which paths they accept and what they make of a file.
//!
//! The tools themselves touch no file. Their caller resolves paths and reads
//! and writes; the tools say which paths are accepted, what an edit makes of
//! a text, and how a directory is listed.

use crate::agent::tools::outcome_text;
use crate::agent::tools::schema::{property, property_value, schema, schema_value};
use crate::json::{entry_views, lemma_entry_views, Json};
use crate::providers::types::option_text;
use crate::text::{
    chars_of, contains, find_in, has_prefix, join, join_strings, replace_all, replaced,
    same_chars, starts_with, string_of, string_views,
};
use vstd::prelude::*;
use vstd::string::StringExecFns;

verus! {

/// Whether the resolved path `path` lies in the resolved directory `dir`:
/// it is the directory, or goes on behind it with a slash.
pub open spec fn within(path: Seq<char>, dir: Seq<char>) -> bool {
    path == dir || (starts_with(path, dir) && dir.len() < path.len() && (dir.len() > 0
        && dir.last() == '/' || path[dir.len() as int] == '/'))
}

/// Whether the resolved path `path` lies in the resolved directory `dir`.
pub fn is_within(path: &str, dir: &str) -> (r: bool)
    ensures
        r == within(path@, dir@),
{
    let p = chars_of(path);
    let d = chars_of(dir);
    if same_chars(&p, &d) {
        return true;
    }
    has_prefix(&p, &d) && d.len() < p.len() && (d.len() > 0 && d[d.len() - 1] == '/' || p[d.len()]
        == '/')
}

/// What resolving a path gave: the resolved path, or the error in text.
pub open spec fn resolved_view(r: Result<String, String>) -> Result<Seq<char>, Seq<char>> {
    outcome_text(r)
}

/// The verdict on a path to read from: without a directory to stay in, every
/// path is accepted; with one, the path must resolve, the directory must
/// resolve, and the path must lie in the directory.
pub open spec fn read_verdict(
    allowed_dir: Option<Seq<char>>,
    path: Seq<char>,
    canonical: Result<Seq<char>, Seq<char>>,
    dir_canonical: Result<Seq<char>, Seq<char>>,
) -> Result<Seq<char>, Seq<char>> {
    match allowed_dir {
        None => Ok(path),
        Some(_) => match canonical {
            Err(e) => Err("Invalid path: "@ + e),
            Ok(resolved) => match dir_canonical {
                Err(e) => Err("Invalid workspace: "@ + e),
                Ok(dir) => if within(resolved, dir) {
                    Ok(path)
                } else {
                    Err("Path outside workspace not allowed"@)
                },
            },
        },
    }
}

/// The verdict on a path to write to, given the absolute path `abs_path`
/// that it stands for: without a directory to stay in, the path is accepted
/// as given; with one, the directory must resolve, the parent of the
/// absolute path must exist and lie in the directory, and the absolute path
/// must not step upwards.
pub open spec fn write_verdict(
    allowed_dir: Option<Seq<char>>,
    path: Seq<char>,
    abs_path: Seq<char>,
    dir_canonical: Result<Seq<char>, Seq<char>>,
    parent_canonical: Option<Seq<char>>,
) -> Result<Seq<char>, Seq<char>> {
    match allowed_dir {
        None => Ok(path),
        Some(_) => match dir_canonical {
            Err(e) => Err("Invalid workspace: "@ + e),
            Ok(dir) => match parent_canonical {
                None => Err("Path validation failed: parent directory does not exist"@),
                Some(parent) => if !within(parent, dir) {
                    Err("Path outside workspace not allowed"@)
                } else if contains(abs_path, "../"@) {
                    Err("Path contains invalid sequences"@)
                } else {
                    Ok(abs_path)
                },
            },
        },
    }
}

/// What an edit makes of a text: every `old` becomes `new`; a text without
/// `old` is not edited.
pub open spec fn edited(content: Seq<char>, old: Seq<char>, new: Seq<char>) -> Result<
    Seq<char>,
    Seq<char>,
> {
    if contains(content, old) {
        Ok(replaced(content, old, new))
    } else {
        Err("old_string not found in file"@)
    }
}

/// An entry of a directory.
#[derive(Debug)]
pub struct DirEntry {
    pub name: String,
    pub is_dir: bool,
}

/// How an entry is listed: a directory with a slash behind its name.
pub open spec fn listed(entry: DirEntry) -> Seq<char> {
    if entry.is_dir {
        entry.name@ + "/"@
    } else {
        entry.name@
    }
}

/// The listing of a directory: its entries, one per line.
pub open spec fn listing(entries: Seq<DirEntry>) -> Seq<char> {
    join(Seq::new(entries.len(), |i: int| listed(entries[i])), "\n"@)
}

fn prefixed(lead: &str, rest: &str) -> (r: String)
    ensures
        r@ == lead@ + rest@,
{
    let mut text = String::from_str(lead);
    text.append(rest);
    text
}

fn path_schema(description: &str) -> (r: Json)
    ensures
        r@ == schema_value(seq![("path"@, property_value("string"@, description@))], seq!["path"@]),
{
    let mut properties: Vec<(String, Json)> = Vec::new();
    properties.push((String::from_str("path"), property("string", description)));
    let mut required: Vec<String> = Vec::new();
    required.push(String::from_str("path"));
    proof {
        lemma_entry_views(properties@);
        assert(entry_views(properties@) =~= seq![
            ("path"@, property_value("string"@, description@)),
        ]);
        assert(string_views(required@) =~= seq!["path"@]);
    }
    schema(properties, required)
}

/// Reads files, inside a directory where one is set.
#[derive(Debug)]
pub struct ReadFileTool {
    pub allowed_dir: Option<String>,
}

impl ReadFileTool {
    pub fn new(allowed_dir: Option<String>) -> (r: Self)
        ensures
            r.allowed_dir == allowed_dir,
    {
        Self { allowed_dir }
    }

    pub fn name(&self) -> (r: &'static str)
        ensures
            r@ == "read_file"@,
    {
        "read_file"
    }

    pub fn description(&self) -> (r: &'static str)
        ensures
            r@ == "Read contents of a file"@,
    {
        "Read contents of a file"
    }

    pub fn parameters(&self) -> (r: Json)
        ensures
            r@ == schema_value(
                seq![("path"@, property_value("string"@, "Path to the file to read"@))],
                seq!["path"@],
            ),
    {
        path_schema("Path to the file to read")
    }

    /// The path as given where it may be read, or why it may not. `canonical`
    /// and `dir_canonical` are what resolving the path and the directory
    /// gave.
    pub fn validate_path(
        &self,
        path: &str,
        canonical: &Result<String, String>,
        dir_canonical: &Result<String, String>,
    ) -> (r: Result<String, String>)
        ensures
            outcome_text(r) == read_verdict(
                option_text(self.allowed_dir),
                path@,
                resolved_view(*canonical),
                resolved_view(*dir_canonical),
            ),
    {
        if self.allowed_dir.is_none() {
            return Ok(String::from_str(path));
        }
        let resolved = match canonical {
            Ok(resolved) => resolved,
            Err(e) => {
                return Err(prefixed("Invalid path: ", e.as_str()));
            },
        };
        let dir = match dir_canonical {
            Ok(dir) => dir,
            Err(e) => {
                return Err(prefixed("Invalid workspace: ", e.as_str()));
            },
        };
        if is_within(resolved.as_str(), dir.as_str()) {
            Ok(String::from_str(path))
        } else {
            Err(String::from_str("Path outside workspace not allowed"))
        }
    }
}

/// Writes files, inside a directory where one is set.
#[derive(Debug)]
pub struct WriteFileTool {
    pub allowed_dir: Option<String>,
}

impl WriteFileTool {
    pub fn new(allowed_dir: Option<String>) -> (r: Self)
        ensures
            r.allowed_dir == allowed_dir,
    {
        Self { allowed_dir }
    }

    pub fn name(&self) -> (r: &'static str)
        ensures
            r@ == "write_file"@,
    {
        "write_file"
    }

    pub fn description(&self) -> (r: &'static str)
        ensures
            r@ == "Write content to a file (creates or overwrites)"@,
    {
        "Write content to a file (creates or overwrites)"
    }

    pub fn parameters(&self) -> (r: Json)
        ensures
            r@ == schema_value(
                seq![
                    ("path"@, property_value("string"@, "Path to the file to write"@)),
                    ("content"@, property_value("string"@, "Content to write to the file"@)),
                ],
                seq!["path"@, "content"@],
            ),
    {
        let mut properties: Vec<(String, Json)> = Vec::new();
        properties.push((String::from_str("path"), property("string", "Path to the file to write")));
        properties.push(
            (String::from_str("content"), property("string", "Content to write to the file")),
        );
        let mut required: Vec<String> = Vec::new();
        required.push(String::from_str("path"));
        required.push(String::from_str("content"));
        proof {
            lemma_entry_views(properties@);
            assert(entry_views(properties@) =~= seq![
                ("path"@, property_value("string"@, "Path to the file to write"@)),
                ("content"@, property_value("string"@, "Content to write to the file"@)),
            ]);
            assert(string_views(required@) =~= seq!["path"@, "content"@]);
        }
        schema(properties, required)
    }

    /// The path to write to where the path may be written, or why it may
    /// not. `abs_path` is the absolute path that `path` stands for;
    /// `dir_canonical` is what resolving the directory gave, and
    /// `parent_canonical` the resolved parent of `abs_path`, where it exists.
    pub fn validate_path(
        &self,
        path: &str,
        abs_path: &str,
        dir_canonical: &Result<String, String>,
        parent_canonical: &Option<String>,
    ) -> (r: Result<String, String>)
        ensures
            outcome_text(r) == write_verdict(
                option_text(self.allowed_dir),
                path@,
                abs_path@,
                resolved_view(*dir_canonical),
                option_text(*parent_canonical),
            ),
    {
        if self.allowed_dir.is_none() {
            return Ok(String::from_str(path));
        }
        let dir = match dir_canonical {
            Ok(dir) => dir,
            Err(e) => {
                return Err(prefixed("Invalid workspace: ", e.as_str()));
            },
        };
        let parent = match parent_canonical {
            Some(parent) => parent,
            None => {
                return Err(
                    String::from_str("Path validation failed: parent directory does not exist"),
                );
            },
        };
        if !is_within(parent.as_str(), dir.as_str()) {
            return Err(String::from_str("Path outside workspace not allowed"));
        }
        if find_in(&chars_of(abs_path), &chars_of("../"), 0).is_some() {
            return Err(String::from_str("Path contains invalid sequences"));
        }
        Ok(String::from_str(abs_path))
    }

    /// What the tool says of a file that was written.
    pub fn written(&self, path: &str) -> (r: String)
        ensures
            r@ == "File written successfully: "@ + path@,
    {
        prefixed("File written successfully: ", path)
    }
}

/// Edits files by replacing text.
#[derive(Debug)]
pub struct EditFileTool {
    pub allowed_dir: Option<String>,
}

impl EditFileTool {
    pub fn new(allowed_dir: Option<String>) -> (r: Self)
        ensures
            r.allowed_dir == allowed_dir,
    {
        Self { allowed_dir }
    }

    pub fn name(&self) -> (r: &'static str)
        ensures
            r@ == "edit_file"@,
    {
        "edit_file"
    }

    pub fn description(&self) -> (r: &'static str)
        ensures
            r@ == "Edit a file by replacing specific text"@,
    {
        "Edit a file by replacing specific text"
    }

    pub fn parameters(&self) -> (r: Json)
        ensures
            r@ == schema_value(
                seq![
                    ("path"@, property_value("string"@, "Path to the file to edit"@)),
                    ("old_string"@, property_value("string"@, "Text to find and replace"@)),
                    ("new_string"@, property_value("string"@, "Replacement text"@)),
                ],
                seq!["path"@, "old_string"@, "new_string"@],
            ),
    {
        let mut properties: Vec<(String, Json)> = Vec::new();
        properties.push((String::from_str("path"), property("string", "Path to the file to edit")));
        properties.push(
            (String::from_str("old_string"), property("string", "Text to find and replace")),
        );
        properties.push((String::from_str("new_string"), property("string", "Replacement text")));
        let mut required: Vec<String> = Vec::new();
        required.push(String::from_str("path"));
        required.push(String::from_str("old_string"));
        required.push(String::from_str("new_string"));
        proof {
            lemma_entry_views(properties@);
            assert(entry_views(properties@) =~= seq![
                ("path"@, property_value("string"@, "Path to the file to edit"@)),
                ("old_string"@, property_value("string"@, "Text to find and replace"@)),
                ("new_string"@, property_value("string"@, "Replacement text"@)),
            ]);
            assert(string_views(required@) =~= seq!["path"@, "old_string"@, "new_string"@]);
        }
        schema(properties, required)
    }

    /// What the edit makes of `content`: every `old_string` becomes
    /// `new_string`; a content without `old_string` is an error.
    pub fn apply_edit(&self, content: &str, old_string: &str, new_string: &str) -> (r: Result<
        String,
        String,
    >)
        ensures
            outcome_text(r) == edited(content@, old_string@, new_string@),
    {
        let text = chars_of(content);
        let old = chars_of(old_string);
        if find_in(&text, &old, 0).is_none() {
            return Err(String::from_str("old_string not found in file"));
        }
        Ok(string_of(&replace_all(&text, &old, &chars_of(new_string))))
    }
}

/// Lists directories.
#[derive(Debug)]
pub struct ListDirTool {
    pub allowed_dir: Option<String>,
}

impl ListDirTool {
    pub fn new(allowed_dir: Option<String>) -> (r: Self)
        ensures
            r.allowed_dir == allowed_dir,
    {
        Self { allowed_dir }
    }

    pub fn name(&self) -> (r: &'static str)
        ensures
            r@ == "list_dir"@,
    {
        "list_dir"
    }

    pub fn description(&self) -> (r: &'static str)
        ensures
            r@ == "List files in a directory"@,
    {
        "List files in a directory"
    }

    pub fn parameters(&self) -> (r: Json)
        ensures
            r@ == schema_value(
                seq![("path"@, property_value("string"@, "Directory path to list"@))],
                seq!["path"@],
            ),
    {
        path_schema("Directory path to list")
    }

    /// The listing of a directory: its entries, one per line, a directory
    /// with a slash behind its name.
    pub fn format_listing(&self, entries: &Vec<DirEntry>) -> (r: String)
        ensures
            r@ == listing(entries@),
    {
        let mut lines: Vec<String> = Vec::new();
        let mut i: usize = 0;
        while i < entries.len()
            invariant
                i <= entries@.len(),
                lines@.len() == i,
                forall|j: int| 0 <= j < i ==> (#[trigger] lines@[j])@ == listed(entries@[j]),
            decreases entries.len() - i,
        {
            let entry = &entries[i];
            let mut line = entry.name.clone();
            if entry.is_dir {
                line.append("/");
            }
            lines.push(line);
            i = i + 1;
        }
        assert(string_views(lines@) =~= Seq::new(entries@.len(), |i: int| listed(entries@[i])));
        join_strings(&lines, "\n")
    }
}

} // verus!
