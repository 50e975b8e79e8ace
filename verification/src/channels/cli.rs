//! The command-line channel: what a line of input means.

use crate::bus::InboundMessage;
use crate::text::{chars_of, string_of, trim, trim_chars};
use vstd::prelude::*;
use vstd::string::StringExecFns;

verus! {

/// What a line of input asks for.
#[derive(Debug)]
pub enum CliInput {
    /// Nothing: the line is empty.
    Empty,
    /// The end of the session.
    Quit,
    /// A message for the assistant.
    Say(String),
}

/// A [`CliInput`] as mathematical data.
pub enum CliInputView {
    Empty,
    Quit,
    Say(Seq<char>),
}

impl View for CliInput {
    type V = CliInputView;

    open spec fn view(&self) -> CliInputView {
        match self {
            CliInput::Empty => CliInputView::Empty,
            CliInput::Quit => CliInputView::Quit,
            CliInput::Say(s) => CliInputView::Say(s@),
        }
    }
}

/// A letter of the ASCII alphabet in lower case; any other character as it
/// is.
pub open spec fn lower(c: char) -> char {
    if 'A' <= c <= 'Z' {
        ((c as u8) + 32) as char
    } else {
        c
    }
}

/// Whether `a` and `b` are the same but for the case of ASCII letters.
pub open spec fn same_ignoring_case(a: Seq<char>, b: Seq<char>) -> bool {
    a.len() == b.len() && forall|i: int| 0 <= i < a.len() ==> lower(a[i]) == lower(b[i])
}

/// Whether a trimmed line ends the session.
pub open spec fn is_quit(line: Seq<char>) -> bool {
    ||| same_ignoring_case(line, "exit"@)
    ||| same_ignoring_case(line, "quit"@)
    ||| same_ignoring_case(line, "/exit"@)
    ||| same_ignoring_case(line, "/quit"@)
}

/// What a line of input asks for.
pub open spec fn read_line(line: Seq<char>) -> CliInputView {
    if trim(line).len() == 0 {
        CliInputView::Empty
    } else if is_quit(trim(line)) {
        CliInputView::Quit
    } else {
        CliInputView::Say(trim(line))
    }
}

fn to_lower(c: char) -> (r: char)
    ensures
        r == lower(c),
{
    if 'A' <= c && c <= 'Z' {
        ((c as u8) + 32) as char
    } else {
        c
    }
}

fn equal_ignoring_case(a: &Vec<char>, b: &str) -> (r: bool)
    ensures
        r == same_ignoring_case(a@, b@),
{
    let other = chars_of(b);
    if a.len() != other.len() {
        return false;
    }
    let mut i: usize = 0;
    while i < a.len()
        invariant
            i <= a.len(),
            a.len() == other.len(),
            other@ == b@,
            forall|j: int| 0 <= j < i ==> lower(a@[j]) == lower(other@[j]),
        decreases a.len() - i,
    {
        if to_lower(a[i]) != to_lower(other[i]) {
            return false;
        }
        i = i + 1;
    }
    true
}

/// The command line as a channel.
#[derive(Debug)]
pub struct CliChannel {
    pub prompt: String,
}

impl CliChannel {
    /// A channel that asks for input with `> `.
    pub fn new() -> (r: Self)
        ensures
            r.prompt@ == "> "@,
    {
        Self { prompt: String::from_str("> ") }
    }

    /// What a line of input asks for: nothing, the end of the session, or a
    /// message for the assistant.
    pub fn read(&self, line: &str) -> (r: CliInput)
        ensures
            r@ == read_line(line@),
    {
        let input = trim_chars(&chars_of(line));
        if input.len() == 0 {
            CliInput::Empty
        } else if equal_ignoring_case(&input, "exit") || equal_ignoring_case(&input, "quit")
            || equal_ignoring_case(&input, "/exit") || equal_ignoring_case(&input, "/quit") {
            CliInput::Quit
        } else {
            CliInput::Say(string_of(&input))
        }
    }

    /// The message for the assistant that a line of input makes.
    pub fn message(&self, input: String) -> (r: InboundMessage)
        ensures
            r.channel@ == "cli"@,
            r.sender_id@ == "user"@,
            r.chat_id@ == "cli"@,
            r.content == input,
    {
        InboundMessage::new(
            String::from_str("cli"),
            String::from_str("user"),
            String::from_str("cli"),
            input,
        )
    }
}

} // verus!
