//! The error type shared by every fallible operation of the bus.

use vstd::prelude::*;

verus! {

/// What went wrong: a fixed message, or one built at run time.
#[derive(Debug)]
pub enum MicrobusError {
    Other(&'static str),
    Dynamic(String),
}

impl MicrobusError {
    /// The characters of the message that the error carries.
    pub open spec fn text(self) -> Seq<char> {
        match self {
            MicrobusError::Other(msg) => msg@,
            MicrobusError::Dynamic(s) => s@,
        }
    }

    /// The message as an owned string.
    pub fn message(&self) -> (out: String)
        ensures
            out@ == self.text(),
    {
        match self {
            MicrobusError::Other(msg) => (*msg).to_owned(),
            MicrobusError::Dynamic(s) => s.clone(),
        }
    }
}

} // verus!
