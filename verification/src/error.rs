//! The error type surfaced by the agent's fallible operations: a plain
//! message, as the remote-call layer reports failures.
use vstd::prelude::*;

verus! {

/// A failure description carrying the message of the underlying error.
pub struct GrcpError {
    message: String,
}

impl GrcpError {
    /// Wraps a message.
    pub fn new(message: &str) -> (e: Self)
        ensures
            e@ == message@,
    {
        GrcpError { message: message.to_owned() }
    }

    /// The wrapped message.
    pub fn message(&self) -> (m: &String)
        ensures
            m@ == self@,
    {
        &self.message
    }
}

impl View for GrcpError {
    type V = Seq<char>;

    closed spec fn view(&self) -> Seq<char> {
        self.message@
    }
}

} // verus!
