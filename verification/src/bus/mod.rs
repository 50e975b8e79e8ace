//! What passes between the channels and the assistant.

pub mod events;

pub use events::{InboundMessage, OutboundMessage};
