//! Requests: values that name an API method and carry its parameters.

pub mod all;
pub mod dispatch;
pub mod payload;
pub mod setters;

pub use all::{EditInlineMessageMedia, SendVideoNote};
pub use dispatch::{Dispatch, Field, FieldValue, Transport};
pub use payload::{HasPayload, Payload, Request};
pub use setters::Settable;
