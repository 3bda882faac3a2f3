//! A client for the Qwen text-generation service: configuration, request and
//! response types, conversations with a history of messages, and the decisions
//! of the command-line chat.
use vstd::prelude::*;

pub mod chat;
pub mod client;
pub mod config;
pub mod converse;
pub mod err;
pub mod types;

verus! {

/// The result of the client's operations.
pub type Result<T> = core::result::Result<T, err::Error>;

} // verus!
