//! Errors reported by the allocator.

use vstd::prelude::*;

verus! {

/// What went wrong.
#[derive(Clone, Copy, Debug, PartialEq, Eq, Structural)]
pub enum ErrorKind {
    /// An address computation would have left the address space.
    BadAddress,
}

/// An error: its kind, and a diagnostic meant for a human reader.
#[derive(Debug, PartialEq, Eq)]
pub struct Error {
    pub kind: ErrorKind,
    pub message: String,
}

pub type Result<T> = core::result::Result<T, Error>;

impl Error {
    /// Whether this is a bad-address error carrying exactly `message`.
    pub open spec fn is_bad_address(self, message: Seq<char>) -> bool {
        self.kind == ErrorKind::BadAddress && self.message@ == message
    }

    /// A bad-address error with the given diagnostic.
    pub fn bad_address(message: &str) -> (error: Error)
        ensures
            error.is_bad_address(message@),
    {
        Error { kind: ErrorKind::BadAddress, message: message.to_owned() }
    }

    /// The diagnostic attached to the error.
    pub fn message(&self) -> (message: &str)
        ensures
            message@ == self.message@,
    {
        self.message.as_str()
    }
}

} // verus!
