use vstd::prelude::*;

use crate::requests::dispatch::Field;
use crate::requests::payload::{HasPayload, Payload};
use crate::types::User;

verus! {

/// A filter method for testing your bot's auth token. Requires no parameters.
/// Returns basic information about the bot in form of a [`User`] object.
#[derive(Debug, PartialEq, Eq, Hash, Clone, Copy, Structural)]
pub struct GetMe {}

impl GetMe {
    /// The one payload of this method.
    pub fn new() -> (payload: Self)
        ensures
            payload == (GetMe {  }),
    {
        GetMe {  }
    }
}

impl Default for GetMe {
    fn default() -> (payload: Self)
        ensures
            payload == (GetMe {  }),
    {
        GetMe {  }
    }
}

impl AsRef<GetMe> for GetMe {
    fn as_ref(&self) -> (payload: &GetMe)
        ensures
            *payload == *self,
    {
        self
    }
}

impl AsMut<GetMe> for GetMe {
    fn as_mut(&mut self) -> (payload: &mut GetMe)
        ensures
            *payload == *old(self),
            *final(self) == *final(payload),
    {
        self
    }
}

impl Payload for GetMe {
    type Output = User;

    open spec fn spec_name() -> Seq<char> {
        "GetMe"@
    }

    open spec fn serialized(&self) -> Seq<Field<'_>> {
        Seq::empty()
    }

    fn name() -> (name: &'static str) {
        proof {
            reveal_strlit("GetMe");
        }
        "GetMe"
    }

    fn fields(&self) -> (fields: Vec<Field<'_>>) {
        Vec::new()
    }

    proof fn lemma_names_are_distinct(&self) {
    }
}

/// The setters of [`GetMe`], on everything that carries one. It has no
/// parameters, so there is nothing to set.
pub trait GetMeSetters: HasPayload<Payload = GetMe> + Sized {

}

impl<P> GetMeSetters for P where P: HasPayload<Payload = GetMe> {

}

} // verus!
