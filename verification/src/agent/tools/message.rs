//! The message tool: to whom a message of the model goes.

use crate::agent::tools::schema::{
    optional_text, optional_text_arg, property, property_value, required_text, schema,
    schema_value, text_arg,
};
use crate::bus::OutboundMessage;
use crate::json::{entry_views, lemma_entry_views, Json, JsonValue};
use crate::providers::types::option_text;
use crate::text::string_views;
use vstd::prelude::*;
use vstd::string::StringExecFns;

verus! {

/// Sends messages of the model to a chat. `connected` says whether there is
/// a channel to send them on.
#[derive(Debug)]
pub struct MessageTool {
    pub connected: bool,
    pub channel: Option<String>,
    pub chat_id: Option<String>,
}

/// Where a message goes and what it says.
pub struct Delivery {
    pub channel: Seq<char>,
    pub chat_id: Seq<char>,
    pub content: Seq<char>,
}

/// The first of two optional texts that is there.
pub open spec fn first_of(a: Option<Seq<char>>, b: Option<Seq<char>>) -> Option<Seq<char>> {
    match a {
        Some(text) => Some(text),
        None => b,
    }
}

/// What the tool makes of its arguments: a delivery, or why there is none.
/// The content must be given. The channel is the one given, or else the
/// chat that the tool is set to. The chat is the one given, or else the one
/// that the tool is set to, or else `default`. Without a channel to send on
/// nothing is delivered.
pub open spec fn planned(
    connected: bool,
    own_chat: Option<Seq<char>>,
    args: JsonValue,
) -> Result<Delivery, Seq<char>> {
    match required_text(args, "content"@, "Missing content parameter"@) {
        Err(e) => Err(e),
        Ok(content) => match first_of(optional_text(args, "channel"@), own_chat) {
            None => Err("Missing channel parameter"@),
            Some(channel) => if connected {
                Ok(
                    Delivery {
                        channel,
                        chat_id: match first_of(optional_text(args, "chat_id"@), own_chat) {
                            Some(chat) => chat,
                            None => "default"@,
                        },
                        content,
                    },
                )
            } else {
                Err("Message sender not configured"@)
            },
        },
    }
}

fn copy_text(s: &Option<String>) -> (r: Option<String>)
    ensures
        option_text(r) == option_text(*s),
{
    match s {
        Some(t) => Some(t.clone()),
        None => None,
    }
}

impl Default for MessageTool {
    fn default() -> (r: Self)
        ensures
            !r.connected,
            r.channel is None,
            r.chat_id is None,
    {
        Self::new()
    }
}

impl MessageTool {
    /// A tool that is not connected and set to no chat.
    pub fn new() -> (r: Self)
        ensures
            !r.connected,
            r.channel is None,
            r.chat_id is None,
    {
        Self { connected: false, channel: None, chat_id: None }
    }

    /// Notes that there is a channel to send on.
    pub fn set_sender(&mut self)
        ensures
            final(self).connected,
            final(self).channel == old(self).channel,
            final(self).chat_id == old(self).chat_id,
    {
        self.connected = true;
    }

    /// Sets the channel and the chat that messages go to by default.
    pub fn set_context(&mut self, channel: String, chat_id: String)
        ensures
            final(self).channel == Some(channel),
            final(self).chat_id == Some(chat_id),
            final(self).connected == old(self).connected,
    {
        self.channel = Some(channel);
        self.chat_id = Some(chat_id);
    }

    pub fn name(&self) -> (r: &'static str)
        ensures
            r@ == "message"@,
    {
        "message"
    }

    pub fn description(&self) -> (r: &'static str)
        ensures
            r@ == "Send a message to a user on a chat channel"@,
    {
        "Send a message to a user on a chat channel"
    }

    pub fn parameters(&self) -> (r: Json)
        ensures
            r@ == schema_value(
                seq![
                    ("content"@, property_value("string"@, "Message content to send"@)),
                    (
                        "channel"@,
                        property_value("string"@, "Channel to send to (telegram, cli, etc.)"@),
                    ),
                    ("chat_id"@, property_value("string"@, "Chat/user ID to send to"@)),
                ],
                seq!["content"@],
            ),
    {
        let mut properties: Vec<(String, Json)> = Vec::new();
        properties.push((String::from_str("content"), property("string", "Message content to send")));
        properties.push(
            (
                String::from_str("channel"),
                property("string", "Channel to send to (telegram, cli, etc.)"),
            ),
        );
        properties.push((String::from_str("chat_id"), property("string", "Chat/user ID to send to")));
        let mut required: Vec<String> = Vec::new();
        required.push(String::from_str("content"));
        proof {
            lemma_entry_views(properties@);
            assert(entry_views(properties@) =~= seq![
                ("content"@, property_value("string"@, "Message content to send"@)),
                (
                    "channel"@,
                    property_value("string"@, "Channel to send to (telegram, cli, etc.)"@),
                ),
                ("chat_id"@, property_value("string"@, "Chat/user ID to send to"@)),
            ]);
            assert(string_views(required@) =~= seq!["content"@]);
        }
        schema(properties, required)
    }

    /// The message that the arguments ask for, or why there is none.
    pub fn prepare(&self, args: &Json) -> (r: Result<OutboundMessage, String>)
        ensures
            match r {
                Ok(msg) => planned(self.connected, option_text(self.chat_id), args@) == Ok::<
                    Delivery,
                    Seq<char>,
                >(Delivery { channel: msg.channel@, chat_id: msg.chat_id@, content: msg.content@ })
                    && msg.message_id is None && !msg.is_streaming && msg.metadata@ == Map::<
                    String,
                    String,
                >::empty(),
                Err(e) => planned(self.connected, option_text(self.chat_id), args@) == Err::<
                    Delivery,
                    Seq<char>,
                >(e@),
            },
    {
        let content = match text_arg(args, "content", "Missing content parameter") {
            Ok(content) => content,
            Err(e) => {
                return Err(e);
            },
        };
        let channel = match optional_text_arg(args, "channel") {
            Some(channel) => channel,
            None => match copy_text(&self.chat_id) {
                Some(channel) => channel,
                None => {
                    return Err(String::from_str("Missing channel parameter"));
                },
            },
        };
        let chat_id = match optional_text_arg(args, "chat_id") {
            Some(chat) => chat,
            None => match copy_text(&self.chat_id) {
                Some(chat) => chat,
                None => String::from_str("default"),
            },
        };
        if self.connected {
            Ok(OutboundMessage::new(channel, chat_id, content))
        } else {
            Err(String::from_str("Message sender not configured"))
        }
    }

    /// What the tool says of a message that was sent.
    pub fn sent(&self) -> (r: String)
        ensures
            r@ == "Message sent"@,
    {
        String::from_str("Message sent")
    }
}

} // verus!
