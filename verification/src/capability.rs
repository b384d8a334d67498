use vstd::prelude::*;

verus! {

/// One of the optional interfaces that a backend may grant.
#[derive(Clone, Copy, Debug, PartialEq, Eq, Structural)]
pub enum Capability {
    /// Read-only access: opening files for reading, metadata, listings.
    Reader,
    /// Sequential writes and the mutating file operations.
    Writer,
    /// Random-access (seekable) writes.
    WriterSeek,
    /// Combined read, write and seek access.
    Full,
}

/// The error of an operation whose capability the backend did not grant.
#[derive(Clone, Copy, Debug, PartialEq, Eq, Structural)]
pub struct Unsupported {
    /// The capability that was asked for and is missing.
    pub capability: Capability,
}

impl Unsupported {
    /// The refusal for a missing `capability`.
    pub fn new(capability: Capability) -> (e: Self)
        ensures
            e.capability == capability,
    {
        Unsupported { capability }
    }
}

} // verus!
