//! One type per API method.

pub mod edit_inline_message_media;
pub mod send_video_note;

pub use edit_inline_message_media::EditInlineMessageMedia;
pub use send_video_note::SendVideoNote;
