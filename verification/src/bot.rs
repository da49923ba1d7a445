use vstd::prelude::*;

verus! {

/// The credentials a request is sent with.
///
/// The HTTP client stays with the transport; a request only needs to know
/// on whose behalf it speaks.
#[derive(Debug, Clone)]
pub struct Bot {
    token: String,
}

impl Bot {
    /// The token this bot authenticates with.
    pub closed spec fn spec_token(&self) -> Seq<char> {
        self.token@
    }

    /// A bot that authenticates with `token`.
    pub fn new(token: String) -> (bot: Bot)
        ensures
            bot.spec_token() == token@,
    {
        Bot { token }
    }

    /// The token this bot authenticates with.
    pub fn token(&self) -> (token: &str)
        ensures
            token@ == self.spec_token(),
    {
        self.token.as_str()
    }
}

} // verus!
