//! The envelopes that channels and the assistant pass to each other.

use std::collections::HashMap;
use vstd::prelude::*;

verus! {

/// A message from a user, as a channel hands it in.
#[derive(Debug, Clone)]
pub struct InboundMessage {
    pub channel: String,
    pub sender_id: String,
    pub chat_id: String,
    pub content: String,
    pub media: Vec<String>,
    pub metadata: HashMap<String, String>,
}

impl InboundMessage {
    /// A message without media and metadata.
    pub fn new(channel: String, sender_id: String, chat_id: String, content: String) -> (r: Self)
        ensures
            r.channel == channel,
            r.sender_id == sender_id,
            r.chat_id == chat_id,
            r.content == content,
            r.media@ == Seq::<String>::empty(),
            r.metadata@ == Map::<String, String>::empty(),
    {
        Self { channel, sender_id, chat_id, content, media: Vec::new(), metadata: HashMap::new() }
    }

    /// The message with `media` for its media.
    pub fn with_media(self, media: Vec<String>) -> (r: Self)
        ensures
            r == (Self { media, ..self }),
    {
        let mut r = self;
        r.media = media;
        r
    }

    /// The message with `metadata` for its metadata.
    pub fn with_metadata(self, metadata: HashMap<String, String>) -> (r: Self)
        ensures
            r == (Self { metadata, ..self }),
    {
        let mut r = self;
        r.metadata = metadata;
        r
    }
}

/// A message to a user, as the assistant hands it to a channel.
#[derive(Debug, Clone)]
pub struct OutboundMessage {
    pub channel: String,
    pub chat_id: String,
    pub content: String,
    pub metadata: HashMap<String, String>,
    pub message_id: Option<i64>,
    pub is_streaming: bool,
}

impl OutboundMessage {
    /// A final message without metadata and message id.
    pub fn new(channel: String, chat_id: String, content: String) -> (r: Self)
        ensures
            r.channel == channel,
            r.chat_id == chat_id,
            r.content == content,
            r.metadata@ == Map::<String, String>::empty(),
            r.message_id is None,
            !r.is_streaming,
    {
        Self {
            channel,
            chat_id,
            content,
            metadata: HashMap::new(),
            message_id: None,
            is_streaming: false,
        }
    }

    /// The message with `metadata` for its metadata.
    pub fn with_metadata(self, metadata: HashMap<String, String>) -> (r: Self)
        ensures
            r == (Self { metadata, ..self }),
    {
        let mut r = self;
        r.metadata = metadata;
        r
    }

    /// The message as an edit of the message `message_id`.
    pub fn with_message_id(self, message_id: i64) -> (r: Self)
        ensures
            r == (Self { message_id: Some(message_id), ..self }),
    {
        let mut r = self;
        r.message_id = Some(message_id);
        r
    }

    /// The message as a piece of an answer that is still growing.
    pub fn streaming(self) -> (r: Self)
        ensures
            r == (Self { is_streaming: true, ..self }),
    {
        let mut r = self;
        r.is_streaming = true;
        r
    }
}

} // verus!
