//! Status reports for a TeamSpeak 3 server, made for a chat bot.
//!
//! The crate holds the rules of the bot and none of its input or output:
//! who may ask, what is asked of the voice server and in which order, and
//! how the answer is laid out as text.

pub mod access;
pub mod flag;
pub mod report;
pub mod session;
pub mod snapshot;
pub mod text;
