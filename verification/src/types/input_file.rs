use vstd::prelude::*;

verus! {

/// A file to send: one that is uploaded, one that Telegram fetches from the
/// Internet, or one that already exists on the Telegram servers.
#[derive(Debug, Clone, PartialEq, Eq, Hash)]
pub enum InputFile {
    /// The path of a local file, uploaded with the request.
    File(String),
    /// An HTTP URL for Telegram to get the file from.
    Url(String),
    /// The identifier of a file that exists on the Telegram servers.
    FileId(String),
}

} // verus!
