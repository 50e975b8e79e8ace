//! Talking to the model endpoint: the message types, where a request goes,
//! and the frames of a streamed response.
//!
//! A streamed response arrives as lines. A line that begins with `data: `
//! is a frame; the frame `[DONE]` ends the stream; any other frame is JSON
//! and may carry a piece of text. A frame that is not JSON, or carries no
//! text, is passed over.

pub mod types;

use crate::config::ProviderConfig;
use crate::json::{parsed, Json, JsonValue};
use crate::text::{
    append_chars, chars_of, find_from, has_prefix, lemma_find_from, lemma_find_from_is, lines,
    occurs_at, same_chars, slice_of, split_lines, starts_with, string_of, string_views, views,
};
use vstd::prelude::*;
use vstd::string::StringExecFns;

verus! {

/// What one line of a streamed response amounts to.
#[derive(Debug)]
pub enum FrameEvent {
    /// A piece of text.
    Item(String),
    /// The end of the stream.
    Done,
    /// Nothing: the line is no frame, or a frame without text.
    Skip,
}

/// A [`FrameEvent`] as mathematical data.
pub enum FrameView {
    Item(Seq<char>),
    Done,
    Skip,
}

impl View for FrameEvent {
    type V = FrameView;

    open spec fn view(&self) -> FrameView {
        match self {
            FrameEvent::Item(s) => FrameView::Item(s@),
            FrameEvent::Done => FrameView::Done,
            FrameEvent::Skip => FrameView::Skip,
        }
    }
}

/// The text that a frame carries: the `content` of the `delta` of its first
/// choice, where that is a text and not empty.
pub open spec fn delta_text(frame: JsonValue) -> Option<Seq<char>> {
    match frame.field("choices"@) {
        Some(choices) => match choices.element(0) {
            Some(choice) => match choice.field("delta"@) {
                Some(delta) => match delta.field("content"@) {
                    Some(JsonValue::Text(text)) => if text.len() > 0 {
                        Some(text)
                    } else {
                        None
                    },
                    _ => None,
                },
                None => None,
            },
            None => None,
        },
        None => None,
    }
}

/// What a frame amounts to, given the value that its body denotes as JSON.
pub open spec fn body_event(body: Seq<char>, value: Option<JsonValue>) -> FrameView {
    if body == "[DONE]"@ {
        FrameView::Done
    } else {
        match value {
            Some(frame) => match delta_text(frame) {
                Some(text) => FrameView::Item(text),
                None => FrameView::Skip,
            },
            None => FrameView::Skip,
        }
    }
}

/// What one line amounts to.
pub open spec fn frame_event(line: Seq<char>) -> FrameView {
    if starts_with(line, "data: "@) {
        let body = line.subrange("data: "@.len() as int, line.len() as int);
        body_event(body, parsed(body))
    } else {
        FrameView::Skip
    }
}

/// The pieces of text that the lines carry, in order, up to the frame that
/// ends the stream, and whether there is such a frame.
pub open spec fn items_until_done(frames: Seq<Seq<char>>) -> (Seq<Seq<char>>, bool)
    decreases frames.len(),
{
    if frames.len() == 0 {
        (Seq::empty(), false)
    } else {
        match frame_event(frames[0]) {
            FrameView::Done => (Seq::empty(), true),
            FrameView::Item(text) => {
                let rest = items_until_done(frames.drop_first());
                (seq![text] + rest.0, rest.1)
            },
            FrameView::Skip => items_until_done(frames.drop_first()),
        }
    }
}

/// The text that a frame carries.
pub fn delta_of(frame: &Json) -> (r: Option<String>)
    ensures
        match r {
            Some(text) => delta_text(frame@) == Some(text@),
            None => delta_text(frame@) is None,
        },
{
    let choices = match frame.get("choices") {
        Some(choices) => choices,
        None => {
            return None;
        },
    };
    let choice = match choices.at(0) {
        Some(choice) => choice,
        None => {
            return None;
        },
    };
    let delta = match choice.get("delta") {
        Some(delta) => delta,
        None => {
            return None;
        },
    };
    match delta.get("content") {
        Some(content) => match content.as_str() {
            Some(text) => {
                if text.unicode_len() > 0 {
                    Some(String::from_str(text))
                } else {
                    None
                }
            },
            None => None,
        },
        None => None,
    }
}

fn decode_chars(line: &Vec<char>) -> (r: FrameEvent)
    ensures
        r@ == frame_event(line@),
{
    let prefix = chars_of("data: ");
    if !has_prefix(line, &prefix) {
        return FrameEvent::Skip;
    }
    let body = slice_of(line, prefix.len(), line.len());
    let done = chars_of("[DONE]");
    if same_chars(&body, &done) {
        return FrameEvent::Done;
    }
    let text = string_of(&body);
    match crate::json::parse(text.as_str()) {
        Some(frame) => match delta_of(&frame) {
            Some(item) => FrameEvent::Item(item),
            None => FrameEvent::Skip,
        },
        None => FrameEvent::Skip,
    }
}

/// What one line of a streamed response amounts to.
pub fn decode_frame(line: &str) -> (r: FrameEvent)
    ensures
        r@ == frame_event(line@),
{
    decode_chars(&chars_of(line))
}

/// The frames of a piece of a streamed response.
#[derive(Debug)]
pub struct FrameBatch {
    /// The pieces of text, in order.
    pub items: Vec<String>,
    /// Whether the stream ended in this piece.
    pub done: bool,
}

fn frames_of(text: &Vec<char>) -> (r: FrameBatch)
    ensures
        (string_views(r.items@), r.done) == items_until_done(lines(text@)),
{
    let all = split_lines(text);
    let mut items: Vec<String> = Vec::new();
    let mut i: usize = 0;
    let ghost frames = lines(text@);
    assert(frames.subrange(0, frames.len() as int) == frames);
    assert(string_views(items@) + items_until_done(frames).0 =~= items_until_done(frames).0);
    while i < all.len()
        invariant
            i <= all@.len(),
            frames == views(all@),
            frames == lines(text@),
            items_until_done(frames) == (
                string_views(items@) + items_until_done(
                    frames.subrange(i as int, frames.len() as int),
                ).0,
                items_until_done(frames.subrange(i as int, frames.len() as int)).1,
            ),
        decreases all.len() - i,
    {
        let ghost rest = frames.subrange(i as int, frames.len() as int);
        proof {
            assert(rest[0] == all@[i as int]@);
            assert(rest.drop_first() == frames.subrange(i + 1, frames.len() as int));
        }
        match decode_chars(&all[i]) {
            FrameEvent::Done => {
                proof {
                    assert(frame_event(rest[0]) is Done);
                    assert(items_until_done(rest) == (Seq::<Seq<char>>::empty(), true));
                    assert(string_views(items@) + Seq::<Seq<char>>::empty() =~= string_views(
                        items@,
                    ));
                }
                return FrameBatch { items, done: true };
            },
            FrameEvent::Item(item) => {
                proof {
                    let tail = items_until_done(rest.drop_first()).0;
                    assert(string_views(items@.push(item)) =~= string_views(items@).push(item@));
                    assert(string_views(items@) + (seq![item@] + tail) =~= string_views(
                        items@,
                    ).push(item@) + tail);
                }
                items.push(item);
            },
            FrameEvent::Skip => {},
        }
        i = i + 1;
    }
    proof {
        assert(string_views(items@) + Seq::<Seq<char>>::empty() =~= string_views(items@));
    }
    FrameBatch { items, done: false }
}

/// Reads the lines of `chunk` as frames: the pieces of text they carry, in
/// order, up to the frame that ends the stream. What follows that frame is
/// not read.
pub fn decode_frames(chunk: &str) -> (r: FrameBatch)
    ensures
        (string_views(r.items@), r.done) == items_until_done(lines(chunk@)),
{
    frames_of(&chars_of(chunk))
}

/// Reads a streamed response that arrives in pieces. A piece may end in the
/// midst of a line; what it holds of that line waits for the next piece.
pub struct FrameDecoder {
    pending: Vec<char>,
    done: bool,
}

/// A [`FrameDecoder`] as mathematical data.
pub struct DecoderView {
    /// The beginning of a line whose end has not come yet.
    pub pending: Seq<char>,
    /// Whether the frame that ends the stream has come.
    pub done: bool,
}

impl View for FrameDecoder {
    type V = DecoderView;

    closed spec fn view(&self) -> DecoderView {
        DecoderView { pending: self.pending@, done: self.done }
    }
}

/// Where the whole lines of `text` end: behind its last line feed, or at its
/// beginning where it holds none.
pub open spec fn whole_lines_end(text: Seq<char>) -> int
    decreases text.len(),
{
    if text.len() == 0 {
        0
    } else if text.last() == '\n' {
        text.len() as int
    } else {
        whole_lines_end(text.drop_last())
    }
}

/// The state after the piece `chunk` and the pieces of text that it brings.
/// The whole lines of what was pending and the piece are read as frames;
/// what stands behind them is pending. Once the stream has ended nothing is
/// read and nothing is pending.
pub open spec fn fed(state: DecoderView, chunk: Seq<char>) -> (DecoderView, Seq<Seq<char>>) {
    if state.done {
        (state, Seq::empty())
    } else {
        let text = state.pending + chunk;
        let end = whole_lines_end(text);
        let read = items_until_done(lines(text.subrange(0, end)));
        (
            DecoderView {
                pending: if read.1 {
                    Seq::empty()
                } else {
                    text.subrange(end, text.len() as int)
                },
                done: read.1,
            },
            read.0,
        )
    }
}

/// The state after the end of the response and the pieces of text that the
/// pending line brings: it is read as the last line.
pub open spec fn closed(state: DecoderView) -> (DecoderView, Seq<Seq<char>>) {
    if state.done {
        (state, Seq::empty())
    } else {
        (DecoderView { pending: Seq::empty(), done: true }, items_until_done(lines(state.pending)).0)
    }
}

/// A line feed stands at a place of a text exactly where the text holds
/// one there.
proof fn lemma_line_feed_at(s: Seq<char>, j: int)
    ensures
        occurs_at(s, seq!['\n'], j) <==> (0 <= j < s.len() && s[j] == '\n'),
{
    let nl = seq!['\n'];
    if 0 <= j < s.len() {
        assert(s.subrange(j, j + 1)[0] == s[j]);
        if s[j] == '\n' {
            assert(s.subrange(j, j + 1) =~= nl);
        }
    }
}

/// The lines of two texts in a row are the lines of the first and the lines
/// of the second, where the first is empty or ends in a line feed.
pub proof fn lemma_lines_of_whole_lines(x: Seq<char>, y: Seq<char>)
    requires
        x.len() == 0 || x.last() == '\n',
    ensures
        lines(x + y) == lines(x) + lines(y),
    decreases x.len(),
{
    let nl = seq!['\n'];
    if x.len() == 0 {
        assert(x + y =~= y);
        assert(lines(x) + lines(y) =~= lines(y));
    } else {
        let all = x + y;
        lemma_find_from(x, nl, 0);
        lemma_line_feed_at(x, x.len() - 1);
        let i = find_from(x, nl, 0)->0;
        lemma_line_feed_at(x, i);
        assert forall|j: int| 0 <= j < i implies !occurs_at(all, nl, j) by {
            lemma_line_feed_at(all, j);
            lemma_line_feed_at(x, j);
        }
        lemma_line_feed_at(all, i);
        lemma_find_from_is(all, nl, 0, i);
        let rest = x.subrange(i + 1, x.len() as int);
        assert(all.subrange(0, i) =~= x.subrange(0, i));
        assert(all.subrange(i + 1, all.len() as int) =~= rest + y);
        if rest.len() > 0 {
            assert(rest.last() == x.last());
        }
        lemma_lines_of_whole_lines(rest, y);
        assert(lines(all) =~= lines(x) + lines(y));
    }
}

/// The pieces of text of two rows of lines: those of the first and, unless
/// the stream ends in the first, those of the second.
pub proof fn lemma_items_in_a_row(first: Seq<Seq<char>>, second: Seq<Seq<char>>)
    ensures
        items_until_done(first + second) == if items_until_done(first).1 {
            items_until_done(first)
        } else {
            (
                items_until_done(first).0 + items_until_done(second).0,
                items_until_done(second).1,
            )
        },
    decreases first.len(),
{
    if first.len() == 0 {
        assert(first + second =~= second);
        assert(items_until_done(first).0 + items_until_done(second).0 =~= items_until_done(
            second,
        ).0);
    } else {
        let all = first + second;
        assert(all[0] == first[0]);
        assert(all.drop_first() =~= first.drop_first() + second);
        lemma_items_in_a_row(first.drop_first(), second);
        match frame_event(first[0]) {
            FrameView::Item(text) => {
                let rest = items_until_done(first.drop_first());
                if !rest.1 {
                    assert(seq![text] + (rest.0 + items_until_done(second).0) =~= (seq![text]
                        + rest.0) + items_until_done(second).0);
                }
            },
            _ => {},
        }
    }
}

/// Where the whole lines end: within the text, behind a line feed unless at
/// the beginning, and with no line feed behind.
pub proof fn lemma_whole_lines_end(text: Seq<char>)
    ensures
        0 <= whole_lines_end(text) <= text.len(),
        whole_lines_end(text) > 0 ==> text[whole_lines_end(text) - 1] == '\n',
        forall|j: int| whole_lines_end(text) <= j < text.len() ==> text[j] != '\n',
    decreases text.len(),
{
    if text.len() > 0 && text.last() != '\n' {
        let head = text.drop_last();
        lemma_whole_lines_end(head);
        assert forall|j: int| whole_lines_end(text) <= j < text.len() implies text[j]
            != '\n' by {
            if j < head.len() {
                assert(text[j] == head[j]);
            }
        }
    }
}

/// A text without a line feed holds no whole line.
pub proof fn lemma_no_whole_line(text: Seq<char>)
    requires
        forall|j: int| 0 <= j < text.len() ==> text[j] != '\n',
    ensures
        whole_lines_end(text) == 0,
    decreases text.len(),
{
    if text.len() > 0 {
        lemma_no_whole_line(text.drop_last());
    }
}

/// Where the whole lines of two texts in a row end: where those of the
/// second end, or, where the second holds none, where those of the first
/// end.
pub proof fn lemma_whole_lines_in_a_row(x: Seq<char>, y: Seq<char>)
    ensures
        whole_lines_end(x + y) == if whole_lines_end(y) > 0 {
            x.len() + whole_lines_end(y)
        } else {
            whole_lines_end(x)
        },
    decreases y.len(),
{
    if y.len() == 0 {
        assert(x + y =~= x);
    } else {
        let all = x + y;
        assert(all.last() == y.last());
        if y.last() != '\n' {
            assert(all.drop_last() =~= x + y.drop_last());
            lemma_whole_lines_in_a_row(x, y.drop_last());
        }
    }
}

/// A response may be cut into pieces anywhere: two pieces, one after the
/// other, leave the decoder as their whole leaves it, and bring the same
/// pieces of text in the same order.
pub proof fn lemma_feeding_in_pieces(state: DecoderView, a: Seq<char>, b: Seq<char>)
    ensures
        fed(fed(state, a).0, b).0 == fed(state, a + b).0,
        fed(state, a).1 + fed(fed(state, a).0, b).1 == fed(state, a + b).1,
{
    if state.done {
        assert(Seq::<Seq<char>>::empty() + Seq::<Seq<char>>::empty() =~= Seq::<
            Seq<char>,
        >::empty());
    } else {
        let t1 = state.pending + a;
        let e1 = whole_lines_end(t1);
        let h1 = t1.subrange(0, e1);
        let r1 = t1.subrange(e1, t1.len() as int);
        let t = state.pending + (a + b);
        let e = whole_lines_end(t);
        let h = t.subrange(0, e);
        let t2 = r1 + b;
        let e2 = whole_lines_end(t2);
        let h2 = t2.subrange(0, e2);
        lemma_whole_lines_end(t1);
        lemma_whole_lines_end(t2);
        lemma_whole_lines_end(t);
        assert(t =~= t1 + b);
        assert forall|j: int| 0 <= j < r1.len() implies r1[j] != '\n' by {
            assert(r1[j] == t1[e1 + j]);
        }
        lemma_no_whole_line(r1);
        lemma_whole_lines_in_a_row(t1, b);
        lemma_whole_lines_in_a_row(r1, b);
        assert(e == e1 + e2);
        assert(h =~= h1 + h2);
        if h1.len() > 0 {
            assert(h1.last() == t1[e1 - 1]);
        }
        lemma_lines_of_whole_lines(h1, h2);
        lemma_items_in_a_row(lines(h1), lines(h2));
        let read1 = items_until_done(lines(h1));
        if read1.1 {
            assert(read1.0 + Seq::<Seq<char>>::empty() =~= read1.0);
        } else {
            assert(t.subrange(e, t.len() as int) =~= t2.subrange(e2, t2.len() as int));
        }
    }
}

impl FrameDecoder {
    /// A decoder at the beginning of a response.
    pub fn new() -> (r: Self)
        ensures
            r@ == (DecoderView { pending: Seq::empty(), done: false }),
    {
        Self { pending: Vec::new(), done: false }
    }

    /// Whether the stream has ended.
    pub fn is_done(&self) -> (r: bool)
        ensures
            r == self@.done,
    {
        self.done
    }

    /// Takes in a piece of the response and hands out the pieces of text
    /// that its whole lines bring, in order.
    pub fn feed(&mut self, chunk: &str) -> (r: Vec<String>)
        ensures
            (final(self)@, string_views(r@)) == fed(old(self)@, chunk@),
    {
        if self.done {
            let r: Vec<String> = Vec::new();
            assert(string_views(r@) =~= Seq::<Seq<char>>::empty());
            return r;
        }
        append_chars(&mut self.pending, &chars_of(chunk));
        let ghost text = self.pending@;
        let mut end: usize = self.pending.len();
        assert(text.subrange(0, end as int) == text);
        while end > 0 && self.pending[end - 1] != '\n'
            invariant
                end <= self.pending.len(),
                text == self.pending@,
                whole_lines_end(text) == whole_lines_end(text.subrange(0, end as int)),
            decreases end,
        {
            proof {
                let head = text.subrange(0, end as int);
                assert(head.last() == text[end - 1]);
                assert(head.drop_last() == text.subrange(0, end - 1));
            }
            end = end - 1;
        }
        proof {
            let head = text.subrange(0, end as int);
            if end > 0 {
                assert(head.last() == text[end - 1]);
            }
        }
        let head = slice_of(&self.pending, 0, end);
        let batch = frames_of(&head);
        if batch.done {
            self.pending = Vec::new();
        } else {
            self.pending = slice_of(&self.pending, end, self.pending.len());
        }
        self.done = batch.done;
        batch.items
    }

    /// Closes the response: the pending line is read as the last line, and
    /// the pieces of text that it brings are handed out.
    pub fn finish(&mut self) -> (r: Vec<String>)
        ensures
            (final(self)@, string_views(r@)) == closed(old(self)@),
    {
        if self.done {
            let r: Vec<String> = Vec::new();
            assert(string_views(r@) =~= Seq::<Seq<char>>::empty());
            return r;
        }
        let batch = frames_of(&self.pending);
        self.pending = Vec::new();
        self.done = true;
        batch.items
    }
}

/// `s` without the slashes that end it.
pub open spec fn without_trailing_slashes(s: Seq<char>) -> Seq<char>
    decreases s.len(),
{
    if s.len() > 0 && s.last() == '/' {
        without_trailing_slashes(s.drop_last())
    } else {
        s
    }
}

/// The address of the chat endpoint under the base address `api_base`.
pub open spec fn completions_url(api_base: Seq<char>) -> Seq<char> {
    without_trailing_slashes(api_base) + "/chat/completions"@
}

/// Where requests to an endpoint go and how they are signed.
pub struct OpenAIProvider {
    config: ProviderConfig,
}

impl OpenAIProvider {
    /// The settings of the provider.
    pub closed spec fn config(&self) -> ProviderConfig {
        self.config
    }

    /// A provider with the settings `config`.
    pub fn new(config: ProviderConfig) -> (r: Self)
        ensures
            r.config() == config,
    {
        Self { config }
    }

    /// The address of the chat endpoint.
    pub fn endpoint(&self) -> (r: String)
        ensures
            r@ == completions_url(self.config().api_base@),
    {
        let base = chars_of(self.config.api_base.as_str());
        let mut end: usize = base.len();
        assert(base@.subrange(0, end as int) == base@);
        while end > 0 && base[end - 1] == '/'
            invariant
                end <= base.len(),
                without_trailing_slashes(base@) == without_trailing_slashes(
                    base@.subrange(0, end as int),
                ),
            decreases end,
        {
            proof {
                let head = base@.subrange(0, end as int);
                assert(head.last() == base@[end - 1]);
                assert(head.drop_last() == base@.subrange(0, end - 1));
            }
            end = end - 1;
        }
        proof {
            let head = base@.subrange(0, end as int);
            if end > 0 {
                assert(head.last() == base@[end - 1]);
            }
            assert(base@.subrange(0, base.len() as int) == base@);
        }
        let mut url = string_of(&slice_of(&base, 0, end));
        url.append("/chat/completions");
        url
    }

    /// The value of the `Authorization` header.
    pub fn authorization(&self) -> (r: String)
        ensures
            r@ == "Bearer "@ + self.config().api_key@,
    {
        let mut header = String::from_str("Bearer ");
        header.append(self.config.api_key.as_str());
        header
    }

    /// The error of a request that the endpoint turned down with the status
    /// `status` and the body `body`.
    pub fn api_error(&self, status: &str, body: &str) -> (r: String)
        ensures
            r@ == "LLM API error: "@ + status@ + " - "@ + body@,
    {
        let mut text = String::from_str("LLM API error: ");
        text.append(status);
        text.append(" - ");
        text.append(body);
        text
    }

    /// The model of a request: the one asked for, or the provider's own.
    pub fn model_or_default(&self, model: Option<String>) -> (r: String)
        ensures
            r@ == match model {
                Some(name) => name@,
                None => self.config().model@,
            },
    {
        match model {
            Some(name) => name,
            None => self.config.model.clone(),
        }
    }
}

} // verus!
