//! The library's error type: a failure described by a message.
use vstd::prelude::*;

verus! {

/// An error carrying a human-readable message.
#[derive(Debug, Clone)]
pub struct LemmyError {
    pub message: String,
}

impl LemmyError {
    /// Builds an error from a message.
    pub fn from_message(message: &str) -> (r: LemmyError)
        ensures
            r.message@ == message@,
    {
        LemmyError { message: message.to_owned() }
    }

    /// The error's message.
    pub fn message(&self) -> (r: &str)
        ensures
            r@ == self.message@,
    {
        self.message.as_str()
    }
}

} // verus!
