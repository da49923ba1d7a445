//! Payloads: the parameters of an API method, apart from who sends them.

pub mod get_me;

pub use get_me::{GetMe, GetMeSetters};
