//! The shell tool: which commands it runs and how it reports what they gave.

use crate::agent::tools::outcome_text;
use crate::agent::tools::pattern::{is_match, match_view, regex_outcome};
use crate::agent::tools::schema::{property, property_value, schema, schema_value};
use crate::json::{entry_views, lemma_entry_views, Json};
use crate::text::{chars_of, decimal, decimal_of, prefix, string_of, string_views, take_prefix};
use vstd::prelude::*;
use vstd::string::{StringExecFns, StringSliceAdditionalSpecFns};
use vstd::utf8::encode_utf8;

verus! {

/// Runs shell commands in a working directory, each within a time limit.
#[derive(Debug)]
pub struct ShellTool {
    pub working_dir: String,
    pub timeout_secs: u64,
}

/// The patterns of commands that are not run.
pub open spec fn dangerous_patterns() -> Seq<Seq<char>> {
    seq![
        "(?i)\\bgit\\s+clone\\b"@,
        "(?i)\\bcurl\\s+.*\\|.*sh\\b"@,
        "(?i)\\bwget\\s+.*\\|.*sh\\b"@,
        "(?i)\\bmv\\b.*?/(etc|bin|usr)\\b"@,
        "(?i)\\bchmod\\b.*?/(etc|bin|usr)\\b"@,
        "(?i)\\bchown\\b.*?/(etc|bin|usr)\\b"@,
        "(?i)\\bmount\\b"@,
        "(?i)\\bumount\\b"@,
        "(?i)\\bpkill\\b"@,
        "(?i)\\bkillall\\b"@,
        "(?i)\\bpasswd\\b"@,
        "(?i)\\bshadow\\b"@,
    ]
}

/// The pattern of a command made of accepted characters only.
pub open spec fn valid_characters() -> Seq<char> {
    "^[a-zA-Z0-9\\s\\-_=+.,:/~@%^*&()?<>\\[\\]{}|;:'\\\\\\\"]+$"@
}

/// The objection of the first of `patterns` that objects to `command`: a
/// pattern that matches it, or one that is no regular expression.
pub open spec fn first_objection(patterns: Seq<Seq<char>>, command: Seq<char>) -> Option<
    Seq<char>,
>
    decreases patterns.len(),
{
    if patterns.len() == 0 {
        None
    } else {
        match regex_outcome(patterns[0], command) {
            Err(e) => Some("Regex error: "@ + e),
            Ok(true) => Some("Command contains potentially dangerous pattern: "@ + patterns[0]),
            Ok(false) => first_objection(patterns.drop_first(), command),
        }
    }
}

/// The verdict on a command, given the objection of the dangerous patterns
/// and whether its characters are accepted: the command as it stands, or
/// why it is not run.
pub open spec fn verdict(
    command: Seq<char>,
    objection: Option<Seq<char>>,
    valid: Result<bool, Seq<char>>,
) -> Result<Seq<char>, Seq<char>> {
    match objection {
        Some(message) => Err(message),
        None => match valid {
            Err(e) => Err("Regex error: "@ + e),
            Ok(false) => Err("Command contains invalid characters"@),
            Ok(true) => if encode_utf8(command).len() > 1000 {
                Err("Command too long (max 1000 characters)"@)
            } else {
                Ok(command)
            },
        },
    }
}

/// The verdict on a command.
pub open spec fn sanitized(command: Seq<char>) -> Result<Seq<char>, Seq<char>> {
    verdict(
        command,
        first_objection(dangerous_patterns(), command),
        regex_outcome(valid_characters(), command),
    )
}

/// What the exit code of a command is shown as: the code, or -1 where the
/// command gave none.
pub open spec fn shown_code(code: Option<i32>) -> int {
    match code {
        Some(c) => c as int,
        None => -1,
    }
}

/// What a command gave, before it is cut to length.
pub open spec fn raw_report(
    success: bool,
    code: Option<i32>,
    stdout: Seq<char>,
    stderr: Seq<char>,
) -> Seq<char> {
    if success {
        if stdout.len() == 0 && stderr.len() > 0 {
            stderr
        } else {
            stdout
        }
    } else {
        "Error (exit "@ + decimal(shown_code(code)) + "): "@ + stdout + "\n"@ + stderr
    }
}

/// A text cut to `limit` characters, with a note where it was longer.
pub open spec fn cut(text: Seq<char>, limit: nat) -> Seq<char> {
    if text.len() > limit {
        prefix(text, limit) + "...[truncated]"@
    } else {
        text
    }
}

/// What the tool reports of a command that ran.
pub open spec fn report(
    success: bool,
    code: Option<i32>,
    stdout: Seq<char>,
    stderr: Seq<char>,
) -> Seq<char> {
    cut(raw_report(success, code, stdout, stderr), 50000)
}

/// Cuts a text to `limit` characters, with a note where it was longer.
pub fn truncate(text: String, limit: usize) -> (r: String)
    ensures
        r@ == cut(text@, limit as nat),
{
    let chars = chars_of(text.as_str());
    if chars.len() > limit {
        let mut r = string_of(&take_prefix(&chars, limit));
        r.append("...[truncated]");
        r
    } else {
        text
    }
}

fn patterns() -> (r: Vec<&'static str>)
    ensures
        r@.len() == dangerous_patterns().len(),
        forall|i: int| 0 <= i < r@.len() ==> (#[trigger] r@[i])@ == dangerous_patterns()[i],
{
    let mut r: Vec<&'static str> = Vec::new();
    r.push("(?i)\\bgit\\s+clone\\b");
    r.push("(?i)\\bcurl\\s+.*\\|.*sh\\b");
    r.push("(?i)\\bwget\\s+.*\\|.*sh\\b");
    r.push("(?i)\\bmv\\b.*?/(etc|bin|usr)\\b");
    r.push("(?i)\\bchmod\\b.*?/(etc|bin|usr)\\b");
    r.push("(?i)\\bchown\\b.*?/(etc|bin|usr)\\b");
    r.push("(?i)\\bmount\\b");
    r.push("(?i)\\bumount\\b");
    r.push("(?i)\\bpkill\\b");
    r.push("(?i)\\bkillall\\b");
    r.push("(?i)\\bpasswd\\b");
    r.push("(?i)\\bshadow\\b");
    r
}

impl ShellTool {
    /// A shell tool that works in `working_dir` and gives a command
    /// `timeout_secs` seconds.
    pub fn new(working_dir: String, timeout_secs: u64) -> (r: Self)
        ensures
            r.working_dir == working_dir,
            r.timeout_secs == timeout_secs,
    {
        Self { working_dir, timeout_secs }
    }

    pub fn name(&self) -> (r: &'static str)
        ensures
            r@ == "shell"@,
    {
        "shell"
    }

    pub fn description(&self) -> (r: &'static str)
        ensures
            r@ == "Execute a shell command"@,
    {
        "Execute a shell command"
    }

    pub fn parameters(&self) -> (r: Json)
        ensures
            r@ == schema_value(
                seq![("command"@, property_value("string"@, "Shell command to execute"@))],
                seq!["command"@],
            ),
    {
        let mut properties: Vec<(String, Json)> = Vec::new();
        properties.push(
            (String::from_str("command"), property("string", "Shell command to execute")),
        );
        let mut required: Vec<String> = Vec::new();
        required.push(String::from_str("command"));
        proof {
            lemma_entry_views(properties@);
            assert(entry_views(properties@) =~= seq![
                ("command"@, property_value("string"@, "Shell command to execute"@)),
            ]);
            assert(string_views(required@) =~= seq!["command"@]);
        }
        schema(properties, required)
    }

    /// The verdict on a command, given the objection of the dangerous
    /// patterns and whether its characters are accepted.
    pub fn judge_command(
        &self,
        command: &str,
        objection: Option<String>,
        valid: Result<bool, String>,
    ) -> (r: Result<String, String>)
        ensures
            outcome_text(r) == verdict(
                command@,
                crate::providers::types::option_text(objection),
                match_view(valid),
            ),
    {
        match objection {
            Some(message) => Err(message),
            None => match valid {
                Err(e) => {
                    let mut message = String::from_str("Regex error: ");
                    message.append(e.as_str());
                    Err(message)
                },
                Ok(false) => Err(String::from_str("Command contains invalid characters")),
                Ok(true) => {
                    if command.as_bytes().len() > 1000 {
                        Err(String::from_str("Command too long (max 1000 characters)"))
                    } else {
                        Ok(String::from_str(command))
                    }
                },
            },
        }
    }

    /// The objection of the dangerous patterns to a command, if any has one.
    pub fn find_objection(&self, command: &str) -> (r: Option<String>)
        ensures
            crate::providers::types::option_text(r) == first_objection(
                dangerous_patterns(),
                command@,
            ),
    {
        let all = patterns();
        let ghost wanted = dangerous_patterns();
        let mut i: usize = 0;
        assert(wanted.subrange(0, wanted.len() as int) == wanted);
        while i < all.len()
            invariant
                i <= all@.len(),
                wanted == dangerous_patterns(),
                all@.len() == wanted.len(),
                forall|k: int| 0 <= k < all@.len() ==> (#[trigger] all@[k])@ == wanted[k],
                first_objection(wanted, command@) == first_objection(
                    wanted.subrange(i as int, wanted.len() as int),
                    command@,
                ),
            decreases all.len() - i,
        {
            let ghost rest = wanted.subrange(i as int, wanted.len() as int);
            proof {
                assert(rest[0] == wanted[i as int]);
                assert(rest.drop_first() == wanted.subrange(i + 1, wanted.len() as int));
            }
            match is_match(all[i], command) {
                Err(e) => {
                    let mut message = String::from_str("Regex error: ");
                    message.append(e.as_str());
                    return Some(message);
                },
                Ok(true) => {
                    let mut message = String::from_str(
                        "Command contains potentially dangerous pattern: ",
                    );
                    message.append(all[i]);
                    return Some(message);
                },
                Ok(false) => {},
            }
            i = i + 1;
        }
        None
    }

    /// The command as it stands where it may run, or why it may not: it
    /// matches a dangerous pattern, holds a character that is not accepted,
    /// or is longer than 1000 bytes.
    pub fn sanitize_command(&self, command: &str) -> (r: Result<String, String>)
        ensures
            outcome_text(r) == sanitized(command@),
    {
        let objection = self.find_objection(command);
        match objection {
            Some(message) => Err(message),
            None => {
                let valid = is_match(
                    "^[a-zA-Z0-9\\s\\-_=+.,:/~@%^*&()?<>\\[\\]{}|;:'\\\\\\\"]+$",
                    command,
                );
                self.judge_command(command, None, valid)
            },
        }
    }

    /// What the tool reports of a command that ran: its output where it
    /// succeeded, its exit code and both outputs where it did not, cut to
    /// 50000 characters.
    pub fn format_output(&self, success: bool, code: Option<i32>, stdout: &str, stderr: &str) -> (r:
        String)
        ensures
            r@ == report(success, code, stdout@, stderr@),
    {
        let result = if success {
            if stdout.unicode_len() == 0 && stderr.unicode_len() > 0 {
                String::from_str(stderr)
            } else {
                String::from_str(stdout)
            }
        } else {
            let shown: i64 = match code {
                Some(c) => c as i64,
                None => -1,
            };
            let mut text = String::from_str("Error (exit ");
            text.append(string_of(&decimal_of(shown)).as_str());
            text.append("): ");
            text.append(stdout);
            text.append("\n");
            text.append(stderr);
            text
        };
        truncate(result, 50000)
    }
}

} // verus!
