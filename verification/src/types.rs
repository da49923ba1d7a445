//! The slice of the Telegram data model that requests carry or yield.

pub mod chat_id;
pub mod input_file;
pub mod input_media;
pub mod outputs;
pub mod reply_markup;

pub use chat_id::ChatId;
pub use input_file::InputFile;
pub use input_media::{InputMedia, InputMediaKind};
pub use outputs::{Message, True, User};
pub use reply_markup::{
    InlineKeyboardButton, InlineKeyboardButtonKind, InlineKeyboardMarkup, KeyboardButton,
    ReplyKeyboardMarkup, ReplyMarkup,
};
