use vstd::prelude::*;

verus! {

/// What pressing an inline button does.
#[derive(Debug, Clone, PartialEq, Eq, Hash)]
pub enum InlineKeyboardButtonKind {
    /// Opens an HTTP URL.
    Url(String),
    /// Sends the data back to the bot in a callback query.
    CallbackData(String),
}

/// One button of an inline keyboard.
#[derive(Debug, Clone, PartialEq, Eq, Hash)]
pub struct InlineKeyboardButton {
    /// Label text on the button.
    pub text: String,
    pub kind: InlineKeyboardButtonKind,
}

/// An inline keyboard that appears right next to the message it belongs to.
#[derive(Debug, Clone, PartialEq, Eq, Hash)]
pub struct InlineKeyboardMarkup {
    /// Button rows, each a list of buttons.
    pub inline_keyboard: Vec<Vec<InlineKeyboardButton>>,
}

/// One button of a custom reply keyboard.
#[derive(Debug, Clone, PartialEq, Eq, Hash)]
pub struct KeyboardButton {
    /// Text of the button, sent as a message when the button is pressed.
    pub text: String,
}

/// A custom keyboard with reply options.
#[derive(Debug, Clone, PartialEq, Eq, Hash)]
pub struct ReplyKeyboardMarkup {
    /// Button rows, each a list of buttons.
    pub keyboard: Vec<Vec<KeyboardButton>>,
}

/// Additional interface options of a message.
#[derive(Debug, Clone, PartialEq, Eq, Hash)]
pub enum ReplyMarkup {
    /// An inline keyboard.
    InlineKeyboardMarkup(InlineKeyboardMarkup),
    /// A custom reply keyboard.
    ReplyKeyboardMarkup(ReplyKeyboardMarkup),
    /// An instruction to remove the reply keyboard.
    ReplyKeyboardRemove,
    /// An instruction to force a reply from the user.
    ForceReply,
}

} // verus!
