//! The channels on which users reach the assistant.

pub mod cli;
pub mod telegram;

use crate::text::same_text;
use vstd::prelude::*;

verus! {

/// Where an answer goes.
#[derive(Debug, Clone, Copy, PartialEq, Eq, Structural)]
pub enum Route {
    Telegram,
    Cli,
    Unknown,
}

/// Where an answer for the channel `channel` goes.
pub open spec fn route_of(channel: Seq<char>) -> Route {
    if channel == "telegram"@ {
        Route::Telegram
    } else if channel == "cli"@ {
        Route::Cli
    } else {
        Route::Unknown
    }
}

/// Where an answer for the channel `channel` goes.
pub fn route(channel: &str) -> (r: Route)
    ensures
        r == route_of(channel@),
{
    if same_text(channel, "telegram") {
        Route::Telegram
    } else if same_text(channel, "cli") {
        Route::Cli
    } else {
        Route::Unknown
    }
}

} // verus!
