//! Request correlation and lookup orchestration for a relay-mediated wallet bridge.

pub mod electrs;
pub mod html;
pub mod json;
pub mod lookup;
pub mod merge;
pub mod nostr_handler;
pub mod protocol;
pub mod reply;
pub mod resolver;
pub mod supervisor;
pub mod text;
