//! Regular expressions, as the `regex` crate matches them.

use vstd::prelude::*;

verus! {

/// Whether the regular expression `pattern` matches anywhere in `text`, or
/// the error of a pattern that is no regular expression.
pub uninterp spec fn regex_outcome(pattern: Seq<char>, text: Seq<char>) -> Result<bool, Seq<char>>;

/// The outcome of a match, as mathematical data.
pub open spec fn match_view(r: Result<bool, String>) -> Result<bool, Seq<char>> {
    match r {
        Ok(b) => Ok(b),
        Err(e) => Err(e@),
    }
}

/// `regex::Regex::new` and then `Regex::is_match`: whether the pattern
/// matches anywhere in the text; where the pattern does not compile, the
/// error as `Error::to_string` gives it. The outcome depends on pattern and
/// text alone.
#[verifier::external_body]
pub(crate) fn is_match(pattern: &str, text: &str) -> (r: Result<bool, String>)
    ensures
        match_view(r) == regex_outcome(pattern@, text@),
{
    match regex::Regex::new(pattern) {
        Ok(re) => Ok(re.is_match(text)),
        Err(e) => Err(e.to_string()),
    }
}

} // verus!
