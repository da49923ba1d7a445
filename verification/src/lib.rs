//! Typed requests for the Telegram Bot HTTP API.
//!
//! Every API method is a value: built from its required fields, refined
//! through consuming setters, and finally turned into a
//! [`requests::Dispatch`] that names the endpoint, the body encoding and the
//! fields that go on the wire. The transport itself is not part of this
//! crate, and neither is the scheduler that drives a request to completion:
//! [`deferred::Deferred`] only keeps the books of a result that is on its
//! way, and [`restricted::Forwarding`] those of a serializer that takes but a
//! few kinds of values.

pub mod bot;
pub mod deferred;
pub mod payloads;
pub mod requests;
pub mod restricted;
pub mod text;
pub mod types;
