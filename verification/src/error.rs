//! The error value threaded through page-level and item-level sequences.
//!
//! The engine treats errors as ordinary stream elements: a failed fetch or a
//! failed extraction is surfaced once to the consumer as an `Err` element
//! rather than as out-of-band control flow.

use vstd::prelude::*;

verus! {

/// Broad classification of an error, mirroring the failure domains the
/// surrounding client stack distinguishes.
#[derive(Debug, Clone, PartialEq, Eq, Structural)]
pub enum ErrorKind {
    /// An input/output failure in the transport or in a spawned process.
    Io,
    /// A payload could not be converted to or from its wire form.
    DataConversion,
    /// A credential could not be obtained or refreshed.
    Credential,
    /// Any failure not covered by the other kinds.
    Other,
}

/// An error value carrying a classification and a human-readable message.
#[derive(Debug, Clone, PartialEq, Eq)]
pub struct Error {
    kind: ErrorKind,
    message: String,
}

impl Error {
    /// The spec-level view of the kind.
    pub closed spec fn spec_kind(&self) -> ErrorKind {
        self.kind
    }

    /// The spec-level view of the message, as a sequence of characters.
    pub closed spec fn spec_message(&self) -> Seq<char> {
        self.message@
    }

    /// Creates an error from a kind and a message.
    pub fn new(kind: ErrorKind, message: String) -> (r: Error)
        ensures
            r.spec_kind() == kind,
            r.spec_message() == message@,
    {
        Error { kind, message }
    }

    /// The classification of this error.
    pub fn kind(&self) -> (r: &ErrorKind)
        ensures
            r == self.spec_kind(),
    {
        &self.kind
    }

    /// The human-readable message of this error.
    pub fn message(&self) -> (r: &String)
        ensures
            r@ == self.spec_message(),
    {
        &self.message
    }
}

} // verus!
