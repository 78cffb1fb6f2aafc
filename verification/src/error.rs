//! The unified error classification shared by every endpoint.

use vstd::prelude::*;

verus! {

/// One classified failure of an API call.
///
/// The four kinds are disjoint so that callers can branch on
/// "my request was wrong" (`PushoverError`) versus "the wire was wrong"
/// (`Config`, `Transport`, `Decode`).
#[derive(Clone, Debug)]
pub enum ErrorKind {
    /// The configured base address could not be parsed.
    Config(String),
    /// The network call failed: connection, TLS or timeout.
    Transport(String),
    /// The response bytes did not match the expected wire shape.
    Decode(String),
    /// A well-formed response reporting a business-level failure: the
    /// service's status code, the echoed request identifier and the full
    /// list of error strings.
    PushoverError { status: i32, request: String, errors: Vec<String> },
}

/// The error type of every call: a single classified kind.
#[derive(Clone, Debug)]
pub struct Error(pub ErrorKind);

impl Error {
    /// The classified kind of this error.
    pub fn kind(&self) -> (r: &ErrorKind)
        ensures
            *r == self.0,
    {
        &self.0
    }
}

} // verus!
