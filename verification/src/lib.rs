//! A personal assistant that answers a message by calling a language model
//! and, where the model asks for them, local tools.

pub mod agent;
pub mod bus;
pub mod channels;
pub mod config;
pub mod json;
pub mod providers;
pub mod text;
