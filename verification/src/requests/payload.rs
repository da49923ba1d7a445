use vstd::prelude::*;

use crate::bot::Bot;
use crate::requests::dispatch::{names, Dispatch, Field, Transport};

verus! {

/// A named, serializable description of one API call.
pub trait Payload {
    /// What the call yields on success.
    type Output;

    /// The name of the API method.
    spec fn spec_name() -> Seq<char>;

    /// The serialized form: the fields that go on the wire, in order.
    spec fn serialized(&self) -> Seq<Field<'_>>;

    /// The name of the API method: fixed per type and never empty.
    fn name() -> (name: &'static str)
        ensures
            name@ == Self::spec_name(),
            name@.len() > 0,
    ;

    /// The serialized form of this payload.
    fn fields(&self) -> (fields: Vec<Field<'_>>)
        ensures
            fields@ == self.serialized(),
    ;

    /// No name occurs twice in the serialized form.
    proof fn lemma_names_are_distinct(&self)
        ensures
            names(self.serialized()).no_duplicates(),
    ;
}

/// Anything that carries a payload: the payload itself, or a request built
/// around one.
pub trait HasPayload: Sized {
    /// The payload that is carried.
    type Payload: Payload;

    /// The payload that is carried.
    spec fn spec_payload(&self) -> Self::Payload;

    /// The carrier with `payload` in place of its own.
    spec fn with_payload(&self, payload: Self::Payload) -> Self;

    /// The payload that is carried.
    fn payload_ref(&self) -> (payload: &Self::Payload)
        ensures
            *payload == self.spec_payload(),
    ;

    /// The payload that is carried, to be changed in place: the carrier ends
    /// up with whatever the payload is left as.
    fn payload_mut(&mut self) -> (payload: &mut Self::Payload)
        ensures
            *payload == old(self).spec_payload(),
            *final(self) == old(self).with_payload(*final(payload)),
    ;
}

/// A payload carries itself.
impl<P: Payload> HasPayload for P {
    type Payload = P;

    open spec fn spec_payload(&self) -> P {
        *self
    }

    open spec fn with_payload(&self, payload: P) -> P {
        payload
    }

    fn payload_ref(&self) -> (payload: &P) {
        self
    }

    fn payload_mut(&mut self) -> (payload: &mut P) {
        self
    }
}

/// A payload that knows how it is sent and on whose behalf.
pub trait Request: Payload {
    /// The body encoding of this kind of request.
    spec fn spec_transport() -> Transport;

    /// The bot that sends the request.
    spec fn spec_bot(&self) -> Bot;

    /// The body encoding: fixed per type, whatever the fields hold.
    fn transport() -> (transport: Transport)
        ensures
            transport == Self::spec_transport(),
    ;

    /// The bot that sends the request.
    fn bot(&self) -> (bot: &Bot)
        ensures
            *bot == self.spec_bot(),
    ;

    /// The call that sending this request amounts to.
    fn dispatch(&self) -> (call: Dispatch<'_>)
        ensures
            call.transport == Self::spec_transport(),
            call.method@ == Self::spec_name(),
            call.token@ == self.spec_bot().spec_token(),
            call.fields@ == self.serialized(),
    {
        Dispatch {
            transport: Self::transport(),
            method: Self::name(),
            token: self.bot().token(),
            fields: self.fields(),
        }
    }
}

} // verus!
