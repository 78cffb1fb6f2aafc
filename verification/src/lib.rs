//! Typed client for the Pushover notification-delivery HTTP API.
//!
//! Callers construct strongly-typed request values; the library builds the
//! call target (path segments and query parameters), encodes form bodies,
//! and decodes the JSON reply into either a domain success value or a
//! structured service error.

mod client;
pub mod deserializers;
mod error;
mod jsonval;
pub mod requests;
mod strutil;
mod types;
mod urlenc;

pub use self::client::{
    api_url, api_version, decode_outcome, interpret_body, lemma_normalize_deterministic,
    PreparedRequest, API,
};
pub use self::error::{Error, ErrorKind};
pub use self::types::{Message, OperatingSystem, Priority, Sound, User, UserType};
