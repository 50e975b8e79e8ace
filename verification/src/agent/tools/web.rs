//! The web tool: which addresses it fetches and what it makes of a page.

use crate::agent::tools::outcome_text;
use crate::agent::tools::pattern::{is_match, match_view, regex_outcome};
use crate::agent::tools::schema::{
    number, number_arg, number_or, property, property_and, property_value, property_with, schema,
    schema_value,
};
use crate::agent::tools::shell::{cut, truncate};
use crate::json::{entry_views, lemma_entry_views, Json, JsonValue};
use crate::providers::types::option_text;
use crate::text::{
    chars_of, digits_value, find_from, find_in, has_prefix, lemma_find_from, matches_at,
    occurs_at, parse_digits, same_chars, squeeze, squeezed, starts_with, string_of, string_views,
};
use vstd::prelude::*;
use vstd::string::StringExecFns;

verus! {

/// Fetches pages from the web.
#[derive(Debug)]
pub struct WebFetchTool {
    pub timeout_secs: u64,
}

/// What the tool reads of an address.
#[derive(Debug)]
pub struct UrlParts {
    /// The address in its normal form.
    pub text: String,
    /// The scheme, in lower case.
    pub scheme: String,
    /// The host, where the address has one.
    pub host: Option<String>,
}

/// A [`UrlParts`] as mathematical data.
pub struct UrlView {
    pub text: Seq<char>,
    pub scheme: Seq<char>,
    pub host: Option<Seq<char>>,
}

impl View for UrlParts {
    type V = UrlView;

    open spec fn view(&self) -> UrlView {
        UrlView { text: self.text@, scheme: self.scheme@, host: option_text(self.host) }
    }
}

/// The parts of the address that `text` denotes, where it denotes one.
pub uninterp spec fn url_parts(text: Seq<char>) -> Option<UrlView>;

/// `url::Url::parse`, and of the address it gives `Url::as_str`,
/// `Url::scheme` and `Url::host_str`: the parts of an address, or `None`
/// where the text is no address. The result depends on the text alone.
#[verifier::external_body]
fn read_url(text: &str) -> (r: Option<UrlParts>)
    ensures
        match r {
            Some(parts) => url_parts(text@) == Some(parts@),
            None => url_parts(text@) is None,
        },
{
    url::Url::parse(text).ok().map(
        |u|
            UrlParts {
                text: u.as_str().to_string(),
                scheme: u.scheme().to_string(),
                host: u.host_str().map(|h| h.to_string()),
            },
    )
}

/// The number below 256 that `s` denotes: decimal digits, with a plus sign
/// before them or without.
pub open spec fn octet(s: Seq<char>) -> Option<nat> {
    let digits = if s.len() > 0 && s[0] == '+' {
        s.drop_first()
    } else {
        s
    };
    match digits_value(digits) {
        Some(n) => if n <= 255 {
            Some(n)
        } else {
            None
        },
        None => None,
    }
}

/// What stands between the first dot of `host` and the next, or the end.
pub open spec fn second_label(host: Seq<char>) -> Option<Seq<char>> {
    match find_from(host, seq!['.'], 0) {
        None => None,
        Some(first) => match find_from(host, seq!['.'], first + 1) {
            Some(second) => Some(host.subrange(first + 1, second)),
            None => Some(host.subrange(first + 1, host.len() as int)),
        },
    }
}

/// Whether `host` begins with `172.` and goes on with a number from 16 to
/// 31.
pub open spec fn in_private_172(host: Seq<char>) -> bool {
    starts_with(host, "172."@) && match second_label(host) {
        Some(label) => match octet(label) {
            Some(n) => 16 <= n <= 31,
            None => false,
        },
        None => false,
    }
}

/// Whether `host` names this machine or an address of a private network.
pub open spec fn is_local(host: Seq<char>) -> bool {
    ||| host == "localhost"@
    ||| starts_with(host, "127."@)
    ||| starts_with(host, "10."@)
    ||| starts_with(host, "192.168."@)
    ||| in_private_172(host)
    ||| starts_with(host, "0."@)
    ||| starts_with(host, "169.254."@)
}

/// The parts of the address that `text` denotes, or `None` where it denotes
/// none.
pub fn parse_url(text: &str) -> (r: Option<UrlParts>)
    ensures
        match r {
            Some(parts) => url_parts(text@) == Some(parts@),
            None => url_parts(text@) is None,
        },
{
    read_url(text)
}

/// The pattern of hosts that are not fetched.
pub open spec fn dangerous_host() -> Seq<char> {
    "(?i)(admin|root|passwd|shadow|etc|var|proc)"@
}

/// Why an address is not fetched before its host is held against the
/// pattern, if anything speaks against it.
pub open spec fn early_objection(parts: Option<UrlView>) -> Option<Seq<char>> {
    match parts {
        None => Some("Invalid URL format"@),
        Some(url) => if url.scheme != "http"@ && url.scheme != "https"@ {
            Some("Only http and https schemes are allowed"@)
        } else {
            match url.host {
                None => Some("URL must have a host"@),
                Some(host) => if is_local(host) {
                    Some("Access to local/network addresses is not allowed"@)
                } else {
                    None
                },
            }
        },
    }
}

/// The verdict on an address, given its parts and whether its host matches
/// the pattern of dangerous hosts: the address in its normal form, or why it
/// is not fetched.
pub open spec fn url_verdict(parts: Option<UrlView>, danger: Result<bool, Seq<char>>) -> Result<
    Seq<char>,
    Seq<char>,
> {
    match early_objection(parts) {
        Some(message) => Err(message),
        None => match danger {
            Err(e) => Err("Regex error: "@ + e),
            Ok(true) => Err("URL contains potentially dangerous pattern: "@ + dangerous_host()),
            Ok(false) => Ok(parts->0.text),
        },
    }
}

/// The verdict on the address `text`.
pub open spec fn validated(text: Seq<char>) -> Result<Seq<char>, Seq<char>> {
    match early_objection(url_parts(text)) {
        Some(message) => Err(message),
        None => url_verdict(
            url_parts(text),
            regex_outcome(dangerous_host(), url_parts(text)->0.host->0),
        ),
    }
}

/// The text of a page from position `i` on, without its tags and without
/// what stands in scripts and styles. A script or style begins at
/// `<script` or `<style`; at `</script` or `</style` it is over, and what
/// follows counts as text from that very character on. Any other tag is
/// left out up to its `>`; a `<` without a `>` behind it is text.
pub open spec fn stripped(s: Seq<char>, i: int, in_script: bool, in_style: bool) -> Seq<char>
    decreases s.len() - i,
{
    if i < 0 || i >= s.len() {
        Seq::empty()
    } else if occurs_at(s, "<script"@, i) {
        stripped(s, i + 1, true, in_style)
    } else if occurs_at(s, "</script"@, i) {
        kept(s[i], false, in_style) + stripped(s, i + 1, false, in_style)
    } else if occurs_at(s, "<style"@, i) {
        stripped(s, i + 1, in_script, true)
    } else if occurs_at(s, "</style"@, i) {
        kept(s[i], in_script, false) + stripped(s, i + 1, in_script, false)
    } else if s[i] == '<' {
        match find_from(s, seq!['>'], i) {
            Some(end) => if i < end < s.len() {
                stripped(s, end + 1, in_script, in_style)
            } else {
                kept(s[i], in_script, in_style) + stripped(s, i + 1, in_script, in_style)
            },
            None => kept(s[i], in_script, in_style) + stripped(s, i + 1, in_script, in_style),
        }
    } else {
        kept(s[i], in_script, in_style) + stripped(s, i + 1, in_script, in_style)
    }
}

/// The character, where it stands outside scripts and styles.
pub open spec fn kept(c: char, in_script: bool, in_style: bool) -> Seq<char> {
    if !in_script && !in_style {
        seq![c]
    } else {
        Seq::empty()
    }
}

/// The text of a page: `stripped`, with every run of white space shrunk to
/// one space.
pub open spec fn page_text(html: Seq<char>) -> Seq<char> {
    squeezed(stripped(html, 0, false, false))
}

/// The text of a page.
pub fn extract_text(html: &str) -> (r: String)
    ensures
        r@ == page_text(html@),
{
    let chars = chars_of(html);
    let script_open = chars_of("<script");
    let script_close = chars_of("</script");
    let style_open = chars_of("<style");
    let style_close = chars_of("</style");
    let mut close: Vec<char> = Vec::new();
    close.push('>');
    assert(close@ =~= seq!['>']);
    let mut result: Vec<char> = Vec::new();
    let mut in_script = false;
    let mut in_style = false;
    let mut i: usize = 0;
    assert(result@ + stripped(chars@, 0, false, false) =~= stripped(chars@, 0, false, false));
    while i < chars.len()
        invariant
            i <= chars.len(),
            script_open@ == "<script"@,
            script_close@ == "</script"@,
            style_open@ == "<style"@,
            style_close@ == "</style"@,
            close@ == seq!['>'],
            stripped(chars@, 0, false, false) == result@ + stripped(
                chars@,
                i as int,
                in_script,
                in_style,
            ),
        decreases chars.len() - i,
    {
        let ghost before = result@;
        let ghost at = i as int;
        let ghost was_script = in_script;
        let ghost was_style = in_style;
        let mut skip_to: Option<usize> = None;
        if matches_at(&chars, &script_open, i) {
            in_script = true;
        } else if matches_at(&chars, &script_close, i) {
            in_script = false;
        } else if matches_at(&chars, &style_open, i) {
            in_style = true;
        } else if matches_at(&chars, &style_close, i) {
            in_style = false;
        } else if chars[i] == '<' {
            match find_in(&chars, &close, i) {
                Some(end) => {
                    proof {
                        lemma_find_from(chars@, close@, at);
                        assert(chars@.subrange(end as int, end + 1)[0] == chars@[end as int]);
                    }
                    skip_to = Some(end);
                },
                None => {},
            }
        }
        match skip_to {
            Some(end) => {
                i = end + 1;
            },
            None => {
                if !in_script && !in_style {
                    result.push(chars[i]);
                }
                proof {
                    let rest = stripped(chars@, at + 1, in_script, in_style);
                    assert(before + (kept(chars@[at], in_script, in_style) + rest) =~= before
                        + kept(chars@[at], in_script, in_style) + rest);
                    assert(result@ =~= before + kept(chars@[at], in_script, in_style));
                    if occurs_at(chars@, "<script"@, at) {
                        assert(result@ == before);
                    } else if occurs_at(chars@, "<style"@, at) && !occurs_at(
                        chars@,
                        "</script"@,
                        at,
                    ) {
                        assert(result@ == before);
                    }
                }
                i = i + 1;
            },
        }
    }
    string_of(&squeeze(&result))
}

fn parse_octet(v: &Vec<char>, from: usize, to: usize) -> (r: Option<u64>)
    requires
        from <= to <= v.len(),
    ensures
        match r {
            Some(n) => octet(v@.subrange(from as int, to as int)) == Some(n as nat),
            None => octet(v@.subrange(from as int, to as int)) is None,
        },
{
    let ghost label = v@.subrange(from as int, to as int);
    let start: usize = if from < to && v[from] == '+' {
        from + 1
    } else {
        from
    };
    proof {
        if from < to {
            assert(label[0] == v@[from as int]);
        }
        if start > from {
            assert(label.drop_first() =~= v@.subrange(start as int, to as int));
        } else {
            assert(label =~= v@.subrange(start as int, to as int));
        }
    }
    parse_digits(v, start, to, 255)
}

fn host_in_private_172(host: &Vec<char>) -> (r: bool)
    ensures
        r == in_private_172(host@),
{
    let lead = chars_of("172.");
    if !has_prefix(host, &lead) {
        return false;
    }
    let mut dot: Vec<char> = Vec::new();
    dot.push('.');
    assert(dot@ =~= seq!['.']);
    match find_in(host, &dot, 0) {
        None => false,
        Some(first) => {
            let (from, to) = match find_in(host, &dot, first + 1) {
                Some(second) => (first + 1, second),
                None => (first + 1, host.len()),
            };
            match parse_octet(host, from, to) {
                Some(n) => 16 <= n && n <= 31,
                None => false,
            }
        },
    }
}

fn host_is_local(host: &str) -> (r: bool)
    ensures
        r == is_local(host@),
{
    let chars = chars_of(host);
    same_chars(&chars, &chars_of("localhost")) || has_prefix(&chars, &chars_of("127."))
        || has_prefix(&chars, &chars_of("10.")) || has_prefix(&chars, &chars_of("192.168."))
        || host_in_private_172(&chars) || has_prefix(&chars, &chars_of("0.")) || has_prefix(
        &chars,
        &chars_of("169.254."),
    )
}

/// What speaks against a response, if anything: its status, or its length.
pub open spec fn response_objection(
    success: bool,
    status: Seq<char>,
    content_length: Option<u64>,
) -> Option<Seq<char>> {
    if !success {
        Some("HTTP error: "@ + status)
    } else if content_length is Some && content_length->0 > 10 * 1024 * 1024 {
        Some("Response too large (>10MB)"@)
    } else {
        None
    }
}

impl Default for WebFetchTool {
    fn default() -> (r: Self)
        ensures
            r.timeout_secs == 30,
    {
        Self::new()
    }
}

impl WebFetchTool {
    /// A web tool that gives a request 30 seconds.
    pub fn new() -> (r: Self)
        ensures
            r.timeout_secs == 30,
    {
        Self { timeout_secs: 30 }
    }

    pub fn name(&self) -> (r: &'static str)
        ensures
            r@ == "web_fetch"@,
    {
        "web_fetch"
    }

    pub fn description(&self) -> (r: &'static str)
        ensures
            r@ == "Fetch content from a URL"@,
    {
        "Fetch content from a URL"
    }

    pub fn parameters(&self) -> (r: Json)
        ensures
            r@ == schema_value(
                seq![
                    ("url"@, property_value("string"@, "URL to fetch"@)),
                    (
                        "max_length"@,
                        property_with(
                            "integer"@,
                            "Maximum characters to return"@,
                            "default"@,
                            JsonValue::PosInt(10000),
                        ),
                    ),
                ],
                seq!["url"@],
            ),
    {
        let mut properties: Vec<(String, Json)> = Vec::new();
        properties.push((String::from_str("url"), property("string", "URL to fetch")));
        properties.push(
            (
                String::from_str("max_length"),
                property_and("integer", "Maximum characters to return", "default", number(10000)),
            ),
        );
        let mut required: Vec<String> = Vec::new();
        required.push(String::from_str("url"));
        proof {
            lemma_entry_views(properties@);
            assert(entry_views(properties@) =~= seq![
                ("url"@, property_value("string"@, "URL to fetch"@)),
                (
                    "max_length"@,
                    property_with(
                        "integer"@,
                        "Maximum characters to return"@,
                        "default"@,
                        JsonValue::PosInt(10000),
                    ),
                ),
            ]);
            assert(string_views(required@) =~= seq!["url"@]);
        }
        schema(properties, required)
    }

    /// Why an address is not fetched before its host is held against the
    /// pattern, if anything speaks against it.
    pub fn early_objection(&self, parts: &Option<UrlParts>) -> (r: Option<String>)
        ensures
            option_text(r) == early_objection(
                match parts {
                    Some(url) => Some(url@),
                    None => None,
                },
            ),
    {
        match parts {
            None => Some(String::from_str("Invalid URL format")),
            Some(url) => {
                let scheme = chars_of(url.scheme.as_str());
                if !same_chars(&scheme, &chars_of("http")) && !same_chars(
                    &scheme,
                    &chars_of("https"),
                ) {
                    return Some(String::from_str("Only http and https schemes are allowed"));
                }
                match &url.host {
                    None => Some(String::from_str("URL must have a host")),
                    Some(host) => {
                        if host_is_local(host.as_str()) {
                            Some(
                                String::from_str(
                                    "Access to local/network addresses is not allowed",
                                ),
                            )
                        } else {
                            None
                        }
                    },
                }
            },
        }
    }

    /// The verdict on an address, given its parts and whether its host
    /// matches the pattern of dangerous hosts.
    pub fn judge_url(&self, parts: Option<UrlParts>, danger: Result<bool, String>) -> (r: Result<
        String,
        String,
    >)
        ensures
            outcome_text(r) == url_verdict(
                match parts {
                    Some(url) => Some(url@),
                    None => None,
                },
                match_view(danger),
            ),
    {
        match self.early_objection(&parts) {
            Some(message) => Err(message),
            None => match danger {
                Err(e) => {
                    let mut message = String::from_str("Regex error: ");
                    message.append(e.as_str());
                    Err(message)
                },
                Ok(true) => {
                    let mut message = String::from_str(
                        "URL contains potentially dangerous pattern: ",
                    );
                    message.append("(?i)(admin|root|passwd|shadow|etc|var|proc)");
                    Err(message)
                },
                Ok(false) => match parts {
                    Some(url) => Ok(url.text),
                    None => Err(String::from_str("Invalid URL format")),
                },
            },
        }
    }

    /// The address in its normal form where it may be fetched, or why it may
    /// not: it is no address, its scheme is neither http nor https, it has
    /// no host, or its host is local or matches the pattern of dangerous
    /// hosts.
    pub fn validate_url(&self, url_str: &str) -> (r: Result<String, String>)
        ensures
            outcome_text(r) == validated(url_str@),
    {
        let parts = parse_url(url_str);
        match self.early_objection(&parts) {
            Some(message) => Err(message),
            None => {
                let danger = match &parts {
                    Some(url) => match &url.host {
                        Some(host) => is_match(
                            "(?i)(admin|root|passwd|shadow|etc|var|proc)",
                            host.as_str(),
                        ),
                        None => Ok(false),
                    },
                    None => Ok(false),
                };
                self.judge_url(parts, danger)
            },
        }
    }

    /// How many characters of a page are returned: what `args` says under
    /// `max_length`, or 10000.
    pub fn max_length(&self, args: &Json) -> (r: u64)
        ensures
            r == number_or(args@, "max_length"@, 10000),
    {
        number_arg(args, "max_length", 10000)
    }

    /// What speaks against a response, if anything.
    pub fn check_response(&self, success: bool, status: &str, content_length: Option<u64>) -> (r:
        Option<String>)
        ensures
            option_text(r) == response_objection(success, status@, content_length),
    {
        if !success {
            let mut message = String::from_str("HTTP error: ");
            message.append(status);
            Some(message)
        } else {
            match content_length {
                Some(n) => if n > 10 * 1024 * 1024 {
                    Some(String::from_str("Response too large (>10MB)"))
                } else {
                    None
                },
                None => None,
            }
        }
    }

    /// What the tool returns of a page: its text, cut to `max_length`
    /// characters.
    pub fn render(&self, body: &str, max_length: usize) -> (r: String)
        ensures
            r@ == cut(page_text(body@), max_length as nat),
    {
        truncate(extract_text(body), max_length)
    }
}

} // verus!
