//! The request-level error: a human-readable message carried to the response
//! envelope. Every per-request failure is converted into one of these at the
//! orchestrator boundary; none escapes as a raw transport fault.

use vstd::prelude::*;

verus! {

/// A request-level error holding its display message.
pub struct Error {
    message: String,
}

impl Error {
    /// Wraps a message into an error.
    pub fn new(message: String) -> (r: Error)
        ensures
            r.msg_view() == message@,
    {
        Error { message }
    }

    /// The spec-level view of the message.
    pub closed spec fn msg_view(&self) -> Seq<char> {
        self.message@
    }

    /// The human-readable message of the error.
    pub fn msg(&self) -> (r: String)
        ensures
            r@ == self.msg_view(),
    {
        self.message.clone()
    }
}

} // verus!
