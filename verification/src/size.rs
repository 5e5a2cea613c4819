//! The pair of byte counts recorded for one upload.

use vstd::prelude::*;

verus! {

/// How many bytes an upload held before and after compression.
#[derive(Debug, Clone, Copy, PartialEq, Eq, Structural)]
pub struct Size {
    original: u64,
    compressed: u64,
}

impl Size {
    /// The byte count of the content as it was received.
    pub closed spec fn spec_original(&self) -> u64 {
        self.original
    }

    /// The byte count of the content as it is stored.
    pub closed spec fn spec_compressed(&self) -> u64 {
        self.compressed
    }

    pub fn new(original: u64, compressed: u64) -> (size: Self)
        ensures
            size.spec_original() == original,
            size.spec_compressed() == compressed,
    {
        Self { original, compressed }
    }

    #[verifier::when_used_as_spec(spec_original)]
    pub fn original(&self) -> (bytes: u64)
        ensures
            bytes == self.spec_original(),
    {
        self.original
    }

    #[verifier::when_used_as_spec(spec_compressed)]
    pub fn compressed(&self) -> (bytes: u64)
        ensures
            bytes == self.spec_compressed(),
    {
        self.compressed
    }
}

} // verus!
