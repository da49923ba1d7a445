use vstd::prelude::*;

use crate::types::chat_id::ChatId;

verus! {

/// What a method yields when all it has to say is that it succeeded.
#[derive(Debug, Clone, Copy, PartialEq, Eq, Hash, Default)]
pub struct True;

/// A Telegram user or bot.
#[derive(Debug, Clone, PartialEq, Eq, Hash)]
pub struct User {
    /// Unique identifier of this user or bot.
    pub id: i64,
    /// `true` if this user is a bot.
    pub is_bot: bool,
    /// The user's or bot's first name.
    pub first_name: String,
}

/// A message.
#[derive(Debug, Clone, PartialEq, Eq, Hash)]
pub struct Message {
    /// Unique message identifier inside its chat.
    pub id: i32,
    /// Date the message was sent, in Unix time.
    pub date: i32,
    /// The conversation the message belongs to.
    pub chat: ChatId,
}

} // verus!
