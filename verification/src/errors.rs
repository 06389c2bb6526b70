//! How a catalog or detail operation can fail, and message-carrying error
//! values for callers that want text.

use vstd::prelude::*;

verus! {

/// The outcome of a failed operation.
#[derive(Clone, Copy, Debug, PartialEq, Eq, Structural)]
pub enum Failure {
    /// The transport could not complete the request; aborts the operation.
    TransportFailure,
    /// The response body did not match the expected JSON shape.
    DecodeFailure,
    /// The upstream explicitly reported no data for this application ID; an
    /// expected outcome that carries the offending ID.
    LookupFailure(u64),
}

/// An error carrying a free-form message.
#[derive(Debug)]
pub struct Error {
    pub description: String,
}

impl Error {
    /// Wraps a message in an [`Error`].
    pub fn new(msg: &str) -> (e: Error)
        ensures
            e.description@ == msg@,
    {
        Error { description: msg.to_owned() }
    }
}

/// An error carrying a free-form message, with the message held private.
#[derive(Debug)]
pub struct SteamError {
    details: String,
}

impl SteamError {
    /// The message this error was created with.
    pub closed spec fn spec_details(&self) -> Seq<char> {
        self.details@
    }

    /// Wraps a message in a [`SteamError`].
    pub fn new(msg: &str) -> (e: SteamError)
        ensures
            e.spec_details() == msg@,
    {
        SteamError { details: msg.to_owned() }
    }

    /// The message this error was created with.
    pub fn details(&self) -> (d: &str)
        ensures
            d@ == self.spec_details(),
    {
        self.details.as_str()
    }
}

} // verus!
