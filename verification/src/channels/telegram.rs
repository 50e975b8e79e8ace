//! The Telegram channel: which updates become messages for the assistant,
//! and how an answer is cut into messages that Telegram takes.

use crate::bus::{InboundMessage, OutboundMessage};
use crate::text::{
    append_chars, chars_of, decimal, decimal_of, i64_value, lines, parse_i64, same_text, slice_of,
    split_lines, string_of, string_views, views,
};
use vstd::prelude::*;
use vstd::string::StringExecFns;

verus! {

/// The most characters that one message holds.
pub const TELEGRAM_MAX_MESSAGE_LENGTH: usize = 4096;

/// A user of Telegram.
#[derive(Debug)]
pub struct User {
    pub id: i64,
    pub is_bot: bool,
    pub username: Option<String>,
    pub first_name: Option<String>,
}

/// A chat of Telegram.
#[derive(Debug)]
pub struct Chat {
    pub id: i64,
    pub chat_type: String,
}

/// A message that Telegram hands in.
#[derive(Debug)]
pub struct Message {
    pub message_id: i64,
    pub from: Option<User>,
    pub chat: Chat,
    pub text: Option<String>,
}

/// A change of the bot's membership in a chat.
#[derive(Debug)]
pub struct ChatMember {
    pub user_id: Option<i64>,
    pub status: String,
}

/// One update of Telegram.
#[derive(Debug)]
pub struct Update {
    pub update_id: i64,
    pub message: Option<Message>,
    pub my_chat_member: Option<ChatMember>,
}

/// Where Telegram is reached and whose messages are taken.
#[derive(Debug)]
pub struct TelegramChannel {
    pub token: String,
    pub allow_from: Vec<String>,
}

/// The sender of a message, in text: the number of the user, or nothing
/// where the message names none.
pub open spec fn sender_of(message: Message) -> Seq<char> {
    match message.from {
        Some(user) => decimal(user.id as int),
        None => Seq::empty(),
    }
}

/// Whether `name` is among `names`.
pub open spec fn listed(names: Seq<Seq<char>>, name: Seq<char>) -> bool {
    exists|i: int| 0 <= i < names.len() && names[i] == name
}

/// What goes on to the assistant of an update.
pub struct Forwarded {
    pub sender_id: Seq<char>,
    pub chat_id: Seq<char>,
    pub content: Seq<char>,
}

/// What goes on to the assistant of an update: the text of its message,
/// unless the update is about membership, the message is from a bot, or the
/// sender is not among those allowed. An empty list allows everyone.
pub open spec fn forwarded(update: Update, allow_from: Seq<Seq<char>>) -> Option<Forwarded> {
    if update.my_chat_member is Some {
        None
    } else {
        match update.message {
            None => None,
            Some(message) => if message.from is Some && message.from->0.is_bot {
                None
            } else if allow_from.len() > 0 && !listed(allow_from, sender_of(message)) {
                None
            } else {
                match message.text {
                    Some(text) => Some(
                        Forwarded {
                            sender_id: sender_of(message),
                            chat_id: decimal(message.chat.id as int),
                            content: text@,
                        },
                    ),
                    None => None,
                }
            },
        }
    }
}

/// The update after `update_id`, from which the next request goes on.
pub open spec fn offset_after(update_id: i64) -> i64 {
    if update_id < i64::MAX {
        (update_id + 1) as i64
    } else {
        update_id
    }
}

/// The last space of `line` from `start` up to `end`, where there is one.
pub open spec fn last_space(line: Seq<char>, start: int, end: int) -> Option<int>
    decreases end - start,
{
    if end <= start || start < 0 || end > line.len() {
        None
    } else if line[end - 1] == ' ' {
        Some(end - 1)
    } else {
        last_space(line, start, end - 1)
    }
}

/// Where a long line is cut behind `start`: at the last space within the
/// limit, or at the limit.
pub open spec fn cut_point(line: Seq<char>, start: int) -> int {
    match last_space(line, start, start + TELEGRAM_MAX_MESSAGE_LENGTH) {
        Some(p) => p,
        None => start + TELEGRAM_MAX_MESSAGE_LENGTH,
    }
}

/// The pieces of a line that is longer than a message, from `start` on.
/// Every piece but the last ends at its cut point, and the character at the
/// cut point goes with neither piece.
pub open spec fn pieces(line: Seq<char>, start: int) -> Seq<Seq<char>>
    decreases line.len() - start,
{
    if start < 0 || start >= line.len() {
        Seq::empty()
    } else if start + TELEGRAM_MAX_MESSAGE_LENGTH >= line.len() {
        seq![line.subrange(start, line.len() as int)]
    } else if start <= cut_point(line, start) < line.len() {
        seq![line.subrange(start, cut_point(line, start))] + pieces(
            line,
            cut_point(line, start) + 1,
        )
    } else {
        Seq::empty()
    }
}

/// `current` with `line` behind it, on a line of its own.
pub open spec fn extended(current: Seq<char>, line: Seq<char>) -> Seq<char> {
    if current.len() > 0 {
        current.push('\n') + line
    } else {
        line
    }
}

/// `chunks` with `current` behind them, where it is not empty.
pub open spec fn flushed(chunks: Seq<Seq<char>>, current: Seq<char>) -> Seq<Seq<char>> {
    if current.len() > 0 {
        chunks.push(current)
    } else {
        chunks
    }
}

/// The messages for the lines `rest`, behind the messages `chunks` that are
/// full and the message `current` that is being filled. A line goes into
/// the current message as long as it fits; a line that does not fit begins
/// the next message, and a line longer than a message is cut into pieces.
pub open spec fn packed(rest: Seq<Seq<char>>, chunks: Seq<Seq<char>>, current: Seq<char>) -> Seq<
    Seq<char>,
>
    decreases rest.len(),
{
    if rest.len() == 0 {
        flushed(chunks, current)
    } else if current.len() + rest[0].len() + 1 > TELEGRAM_MAX_MESSAGE_LENGTH {
        if rest[0].len() > TELEGRAM_MAX_MESSAGE_LENGTH {
            packed(rest.drop_first(), flushed(chunks, current) + pieces(rest[0], 0), Seq::empty())
        } else {
            packed(rest.drop_first(), flushed(chunks, current), rest[0])
        }
    } else {
        packed(rest.drop_first(), chunks, extended(current, rest[0]))
    }
}

/// The messages that a text is sent as.
pub open spec fn split(content: Seq<char>) -> Seq<Seq<char>> {
    packed(lines(content), Seq::empty(), Seq::empty())
}

/// No text of `chunks` is longer than a message.
pub open spec fn all_fit(chunks: Seq<Seq<char>>) -> bool {
    forall|i: int| 0 <= i < chunks.len() ==> (#[trigger] chunks[i]).len()
        <= TELEGRAM_MAX_MESSAGE_LENGTH
}

/// A space found by `last_space` lies in the range that was searched.
pub proof fn lemma_last_space(line: Seq<char>, start: int, end: int)
    ensures
        match last_space(line, start, end) {
            Some(p) => start <= p < end && p < line.len() && line[p] == ' ' && forall|j: int|
                p < j < end ==> line[j] != ' ',
            None => start >= 0 && end <= line.len() ==> forall|j: int|
                start <= j < end ==> line[j] != ' ',
        },
    decreases end - start,
{
    if end <= start || start < 0 || end > line.len() {
    } else if line[end - 1] == ' ' {
    } else {
        lemma_last_space(line, start, end - 1);
    }
}

/// No piece of a long line is longer than a message.
pub proof fn lemma_pieces_fit(line: Seq<char>, start: int)
    ensures
        all_fit(pieces(line, start)),
    decreases line.len() - start,
{
    if start < 0 || start >= line.len() {
    } else if start + TELEGRAM_MAX_MESSAGE_LENGTH >= line.len() {
    } else {
        lemma_last_space(line, start, start + TELEGRAM_MAX_MESSAGE_LENGTH);
        let cut = cut_point(line, start);
        if start <= cut < line.len() {
            lemma_pieces_fit(line, cut + 1);
            let head = seq![line.subrange(start, cut)];
            let tail = pieces(line, cut + 1);
            assert forall|i: int| 0 <= i < (head + tail).len() implies (#[trigger] (head
                + tail)[i]).len() <= TELEGRAM_MAX_MESSAGE_LENGTH by {
                if i > 0 {
                    assert((head + tail)[i] == tail[i - 1]);
                }
            }
        }
    }
}

/// Packing lines behind messages that fit gives messages that fit.
pub proof fn lemma_packed_fit(rest: Seq<Seq<char>>, chunks: Seq<Seq<char>>, current: Seq<char>)
    requires
        all_fit(chunks),
        current.len() <= TELEGRAM_MAX_MESSAGE_LENGTH,
    ensures
        all_fit(packed(rest, chunks, current)),
    decreases rest.len(),
{
    if rest.len() == 0 {
    } else if current.len() + rest[0].len() + 1 > TELEGRAM_MAX_MESSAGE_LENGTH {
        if rest[0].len() > TELEGRAM_MAX_MESSAGE_LENGTH {
            lemma_pieces_fit(rest[0], 0);
            let a = flushed(chunks, current);
            let b = pieces(rest[0], 0);
            assert forall|i: int| 0 <= i < (a + b).len() implies (#[trigger] (a + b)[i]).len()
                <= TELEGRAM_MAX_MESSAGE_LENGTH by {
                if i >= a.len() {
                    assert((a + b)[i] == b[i - a.len()]);
                } else {
                    assert((a + b)[i] == a[i]);
                }
            }
            lemma_packed_fit(rest.drop_first(), a + b, Seq::empty());
        } else {
            lemma_packed_fit(rest.drop_first(), flushed(chunks, current), rest[0]);
        }
    } else {
        lemma_packed_fit(rest.drop_first(), chunks, extended(current, rest[0]));
    }
}

/// No message that a text is sent as is longer than Telegram takes.
pub proof fn lemma_split_fits(content: Seq<char>)
    ensures
        all_fit(split(content)),
{
    lemma_packed_fit(lines(content), Seq::empty(), Seq::empty());
}

fn find_last_space(line: &Vec<char>, start: usize, end: usize) -> (r: Option<usize>)
    requires
        start <= end <= line.len(),
    ensures
        match r {
            Some(p) => last_space(line@, start as int, end as int) == Some(p as int),
            None => last_space(line@, start as int, end as int) is None,
        },
{
    let mut i: usize = end;
    while i > start
        invariant
            start <= i <= end <= line.len(),
            last_space(line@, start as int, end as int) == last_space(
                line@,
                start as int,
                i as int,
            ),
        decreases i,
    {
        if line[i - 1] == ' ' {
            return Some(i - 1);
        }
        i = i - 1;
    }
    None
}

fn split_long(line: &Vec<char>, chunks: &mut Vec<Vec<char>>)
    requires
        line.len() > TELEGRAM_MAX_MESSAGE_LENGTH,
    ensures
        views(final(chunks)@) == views(old(chunks)@) + pieces(line@, 0),
{
    let mut start: usize = 0;
    assert(views(chunks@) + pieces(line@, 0) =~= views(old(chunks)@) + pieces(line@, 0));
    while start < line.len()
        invariant
            start <= line.len() + 1,
            views(old(chunks)@) + pieces(line@, 0) == views(chunks@) + pieces(line@, start as int),
        decreases line.len() + 1 - start,
    {
        let ghost before = views(chunks@);
        if line.len() - start <= TELEGRAM_MAX_MESSAGE_LENGTH {
            let piece = slice_of(line, start, line.len());
            proof {
                assert(views(chunks@.push(piece)) =~= before.push(piece@));
                assert(before + seq![piece@] =~= before.push(piece@));
            }
            chunks.push(piece);
            return ;
        }
        let end: usize = start + TELEGRAM_MAX_MESSAGE_LENGTH;
        let split_point = match find_last_space(line, start, end) {
            Some(p) => p,
            None => end,
        };
        proof {
            lemma_last_space(line@, start as int, end as int);
        }
        let piece = slice_of(line, start, split_point);
        proof {
            let tail = pieces(line@, split_point + 1);
            assert(views(chunks@.push(piece)) =~= before.push(piece@));
            assert(before + (seq![piece@] + tail) =~= before.push(piece@) + tail);
        }
        chunks.push(piece);
        start = split_point + 1;
    }
    assert(views(chunks@) + Seq::<Seq<char>>::empty() =~= views(chunks@));
}

impl TelegramChannel {
    /// A channel with the bot token `token` that takes messages from the
    /// users `allow_from`, or from everyone where the list is empty.
    pub fn new(token: String, allow_from: Vec<String>) -> (r: Self)
        ensures
            r.token == token,
            r.allow_from == allow_from,
    {
        Self { token, allow_from }
    }

    /// The address of the method `method` of the bot API.
    pub fn api_url(&self, method: &str) -> (r: String)
        ensures
            r@ == "https://api.telegram.org/bot"@ + self.token@ + "/"@ + method@,
    {
        let mut url = String::from_str("https://api.telegram.org/bot");
        url.append(self.token.as_str());
        url.append("/");
        url.append(method);
        url
    }

    /// The address that asks for the updates from `offset` on.
    pub fn updates_url(&self, offset: i64) -> (r: String)
        ensures
            r@ == "https://api.telegram.org/bot"@ + self.token@ + "/"@
                + "getUpdates?timeout=60&offset="@ + decimal(offset as int),
    {
        let mut url = self.api_url("getUpdates?timeout=60&offset=");
        url.append(string_of(&decimal_of(offset)).as_str());
        url
    }

    fn allows(&self, sender: &str) -> (r: bool)
        ensures
            r == listed(string_views(self.allow_from@), sender@),
    {
        let mut i: usize = 0;
        while i < self.allow_from.len()
            invariant
                i <= self.allow_from@.len(),
                forall|j: int| 0 <= j < i ==> self.allow_from@[j]@ != sender@,
            decreases self.allow_from.len() - i,
        {
            if same_text(self.allow_from[i].as_str(), sender) {
                assert(string_views(self.allow_from@)[i as int] == sender@);
                return true;
            }
            i = i + 1;
        }
        false
    }

    /// What goes on to the assistant of an update, if anything.
    pub fn accept(&self, update: &Update) -> (r: Option<InboundMessage>)
        ensures
            match r {
                Some(msg) => forwarded(*update, string_views(self.allow_from@)) == Some(
                    Forwarded {
                        sender_id: msg.sender_id@,
                        chat_id: msg.chat_id@,
                        content: msg.content@,
                    },
                ) && msg.channel@ == "telegram"@ && msg.media@ == Seq::<String>::empty()
                    && msg.metadata@ == Map::<String, String>::empty(),
                None => forwarded(*update, string_views(self.allow_from@)) is None,
            },
    {
        if update.my_chat_member.is_some() {
            return None;
        }
        let message = match &update.message {
            Some(message) => message,
            None => {
                return None;
            },
        };
        let sender = match &message.from {
            Some(user) => {
                if user.is_bot {
                    return None;
                }
                string_of(&decimal_of(user.id))
            },
            None => String::new(),
        };
        if self.allow_from.len() > 0 && !self.allows(sender.as_str()) {
            return None;
        }
        match &message.text {
            Some(text) => Some(
                InboundMessage::new(
                    String::from_str("telegram"),
                    sender,
                    string_of(&decimal_of(message.chat.id)),
                    text.clone(),
                ),
            ),
            None => None,
        }
    }

    /// The update from which the next request goes on after `update`.
    pub fn next_offset(&self, update: &Update) -> (r: i64)
        ensures
            r == offset_after(update.update_id),
    {
        if update.update_id < i64::MAX {
            update.update_id + 1
        } else {
            update.update_id
        }
    }

    /// The chat that a message goes to, as Telegram numbers it.
    pub fn chat_of(&self, msg: &OutboundMessage) -> (r: Result<i64, String>)
        ensures
            match i64_value(msg.chat_id@) {
                Some(id) => r == Ok::<i64, String>(id),
                None => r is Err && r->Err_0@ == "Invalid chat_id"@,
            },
    {
        match parse_i64(msg.chat_id.as_str()) {
            Some(id) => Ok(id),
            None => Err(String::from_str("Invalid chat_id")),
        }
    }

    /// The messages that a text is sent as, none of them longer than
    /// Telegram takes.
    pub fn split_message(&self, content: &str) -> (r: Vec<String>)
        ensures
            string_views(r@) == split(content@),
            all_fit(string_views(r@)),
    {
        let all = split_lines(&chars_of(content));
        let mut chunks: Vec<Vec<char>> = Vec::new();
        let mut current: Vec<char> = Vec::new();
        let ghost rows = lines(content@);
        let mut i: usize = 0;
        assert(rows.subrange(0, rows.len() as int) == rows);
        assert(views(chunks@) =~= Seq::<Seq<char>>::empty());
        while i < all.len()
            invariant
                i <= all@.len(),
                rows == views(all@),
                rows == lines(content@),
                split(content@) == packed(
                    rows.subrange(i as int, rows.len() as int),
                    views(chunks@),
                    current@,
                ),
            decreases all.len() - i,
        {
            let line = &all[i];
            let ghost rest = rows.subrange(i as int, rows.len() as int);
            let ghost before = views(chunks@);
            proof {
                assert(rest[0] == line@);
                assert(rest.drop_first() == rows.subrange(i + 1, rows.len() as int));
            }
            let ghost held = current@;
            if line.len() >= TELEGRAM_MAX_MESSAGE_LENGTH || current.len()
                >= TELEGRAM_MAX_MESSAGE_LENGTH - line.len() {
                if current.len() > 0 {
                    proof {
                        assert(views(chunks@.push(current)) =~= before.push(current@));
                    }
                    chunks.push(current);
                    current = Vec::new();
                }
                assert(views(chunks@) == flushed(before, held));
                assert(current@ =~= Seq::<char>::empty());
                if line.len() > TELEGRAM_MAX_MESSAGE_LENGTH {
                    split_long(line, &mut chunks);
                } else {
                    append_chars(&mut current, line);
                    assert(current@ =~= line@);
                }
            } else {
                if current.len() > 0 {
                    current.push('\n');
                }
                append_chars(&mut current, line);
                assert(current@ =~= extended(held, line@));
            }
            i = i + 1;
        }
        if current.len() > 0 {
            proof {
                assert(views(chunks@.push(current)) =~= views(chunks@).push(current@));
            }
            chunks.push(current);
        }
        let mut r: Vec<String> = Vec::new();
        let mut k: usize = 0;
        while k < chunks.len()
            invariant
                k <= chunks@.len(),
                r@.len() == k,
                forall|j: int| 0 <= j < k ==> (#[trigger] r@[j])@ == chunks@[j]@,
            decreases chunks.len() - k,
        {
            r.push(string_of(&chunks[k]));
            k = k + 1;
        }
        proof {
            assert(string_views(r@) =~= views(chunks@));
            lemma_split_fits(content@);
        }
        r
    }
}

} // verus!
