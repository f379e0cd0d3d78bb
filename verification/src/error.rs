//! The error type for this crate.

use vstd::prelude::*;

verus! {

/// A list of error kinds.
#[derive(Debug, Clone, Copy, PartialEq, Eq, Structural)]
pub enum ErrorKind {
    /// Invalid input.
    Invalid,

    /// Unknown error.
    Other,
}

/// The error type for this crate: a kind from the closed list above and a
/// human-readable cause.
#[derive(Debug, Clone)]
pub struct Error {
    kind: ErrorKind,
    message: String,
}

impl Error {
    /// The kind of this error.
    pub closed spec fn spec_kind(&self) -> ErrorKind {
        self.kind
    }

    /// The human-readable cause of this error.
    pub closed spec fn spec_message(&self) -> Seq<char> {
        self.message@
    }

    /// Makes an `Invalid` error: the configuration cannot produce a valid
    /// builder.
    pub fn invalid(message: String) -> (r: Self)
        ensures
            r.spec_kind() == ErrorKind::Invalid,
            r.spec_message() == message@,
    {
        Error { kind: ErrorKind::Invalid, message }
    }

    /// Makes an `Other` error: an I/O or environment failure.
    pub fn other(message: String) -> (r: Self)
        ensures
            r.spec_kind() == ErrorKind::Other,
            r.spec_message() == message@,
    {
        Error { kind: ErrorKind::Other, message }
    }

    /// The kind of this error.
    pub fn kind(&self) -> (r: ErrorKind)
        ensures
            r == self.spec_kind(),
    {
        self.kind
    }

    /// The human-readable cause of this error.
    pub fn message(&self) -> (r: &String)
        ensures
            r@ == self.spec_message(),
    {
        &self.message
    }
}

} // verus!
