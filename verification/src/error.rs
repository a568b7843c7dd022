//! The request-scoped error carried from a failed store write back to the
//! caller: an opaque human-readable message, nothing more.

use vstd::prelude::*;

verus! {

/// A request-scoped failure. It carries the message reported by the store;
/// no structured code distinguishes the cause.
pub struct Error {
    message: String,
}

impl Error {
    /// Wraps a message reported by the store into a request-scoped error.
    pub fn new(message: String) -> (r: Error)
        ensures
            r@ == message@,
    {
        Error { message }
    }

    /// The message as a sequence of characters.
    pub closed spec fn view(&self) -> Seq<char> {
        self.message@
    }

    /// The human-readable message, for logs and for the failure status
    /// returned to the caller.
    pub fn message(&self) -> (r: &String)
        ensures
            r@ == self@,
    {
        &self.message
    }

    /// Gives the message up, consuming the error.
    pub fn into_message(self) -> (r: String)
        ensures
            r@ == self@,
    {
        self.message
    }
}

} // verus!
