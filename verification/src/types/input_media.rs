use vstd::prelude::*;

use crate::types::input_file::InputFile;

verus! {

/// What a piece of media is shown as.
#[derive(Debug, Clone, Copy, PartialEq, Eq, Hash)]
pub enum InputMediaKind {
    Photo,
    Video,
    Animation,
    Audio,
    Document,
}

/// The content of a media message to be sent.
#[derive(Debug, Clone, PartialEq, Eq, Hash)]
pub struct InputMedia {
    /// How the file is to be shown.
    pub kind: InputMediaKind,
    /// The file itself.
    pub media: InputFile,
    /// Caption of the media, if any.
    pub caption: Option<String>,
}

} // verus!
