//! Who may ask for a report.

use std::collections::HashSet;
use vstd::prelude::*;

verus! {

/// What the bot is set up with. It is read once and never changed.
pub struct Config {
    /// Address of the voice server's query port.
    pub ts3_server: String,
    /// Password of the service account on the voice server.
    pub ts3_password: String,
    /// Token of the bot on the chat service.
    pub telegram_token: String,
    /// Users who may ask, wherever they write from.
    pub allowed_users: HashSet<u64>,
    /// Chats in which anyone may ask.
    pub allowed_chats: HashSet<i64>,
}

/// The answer of the guard.
#[derive(Debug, Clone, Copy, PartialEq, Eq, Structural)]
pub enum Access {
    Allowed,
    Denied,
}

/// Whether a request of `user` in `chat` is let through. Either grant is
/// enough: the user is on the list of users, or the chat is on the list
/// of chats. A side that is not known matches nothing.
pub open spec fn is_permitted(
    allowed_users: Set<u64>,
    allowed_chats: Set<i64>,
    user: Option<u64>,
    chat: Option<i64>,
) -> bool {
    ||| user matches Some(id) && allowed_users.contains(id)
    ||| chat matches Some(id) && allowed_chats.contains(id)
}

/// Decides whether a request of `user` in `chat` is let through.
///
/// `None` stands for a sender or a chat that could not be made out. It
/// is no error: that side just matches nothing.
pub fn check_access(
    allowed_users: &HashSet<u64>,
    allowed_chats: &HashSet<i64>,
    user: Option<u64>,
    chat: Option<i64>,
) -> (access: Access)
    ensures
        access == if is_permitted(allowed_users@, allowed_chats@, user, chat) {
            Access::Allowed
        } else {
            Access::Denied
        },
        user is None && chat is None ==> access == Access::Denied,
{
    let user_allowed = match user {
        Some(id) => allowed_users.contains(&id),
        None => false,
    };
    let chat_allowed = match chat {
        Some(id) => allowed_chats.contains(&id),
        None => false,
    };
    if user_allowed || chat_allowed {
        Access::Allowed
    } else {
        Access::Denied
    }
}

impl Config {
    /// Whether this configuration lets a request of `user` in `chat`
    /// through.
    pub open spec fn permits(&self, user: Option<u64>, chat: Option<i64>) -> bool {
        is_permitted(self.allowed_users@, self.allowed_chats@, user, chat)
    }
}

} // verus!
