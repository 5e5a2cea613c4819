//! What can go wrong in the cache engine.

use crate::id::EntryId;
use vstd::prelude::*;

verus! {

/// A failure of a cache operation. File failures carry the path of the file
/// and the cause as the operating system worded it.
#[derive(Debug)]
pub enum CacheError {
    /// A file could not be created.
    FileCreate { file: String, why: String },
    /// A file could not be opened.
    FileOpen { file: String, why: String },
    /// A file could not be read.
    FileRead { file: String, why: String },
    /// A file could not be written.
    FileWrite { file: String, why: String },
    /// A file could not be removed.
    FileRemove { file: String, why: String },
    /// A file could not be renamed.
    FileRename { file: String, why: String },
    /// The cache directory could not be listed.
    CacheDirRead { dir: String, why: String },
    /// The upload held more bytes than the configured maximum.
    FileSizeExceeded,
    /// The codec failed while compressing.
    Compression { why: String },
    /// The codec failed while decompressing.
    Decompression,
    /// No entry has this identifier.
    NotFound { id: EntryId },
    /// The entry exists and is not ready to be read.
    NotReady { id: EntryId },
    /// A value could not be written as JSON.
    Serialization { context: String, why: String },
    /// A file did not hold the JSON that was expected.
    Deserialization { file: String, why: String },
    /// A text is not a well-formed identifier.
    InvalidId { value: String },
    /// A file does not have the expected extension.
    WrongFileType { expected: String, actual: String },
    /// The duplicate index did not list an identifier under exactly one hash.
    /// This is a defect of the index, and trying again does not help.
    DuplicateIndexInvariantViolation { id: EntryId, hashes: Vec<String> },
    /// Several independent failures.
    Multiple(Vec<CacheError>),
}

impl CacheError {
    /// Whether the caller may try the whole operation again with a fresh
    /// identifier: true of the file failures, which may pass.
    pub open spec fn spec_is_transient(&self) -> bool {
        self is FileCreate || self is FileOpen || self is FileRead || self is FileWrite
            || self is FileRemove || self is FileRename || self is CacheDirRead
    }

    #[verifier::when_used_as_spec(spec_is_transient)]
    pub fn is_transient(&self) -> (transient: bool)
        ensures
            transient == self.spec_is_transient(),
    {
        match self {
            CacheError::FileCreate { .. } => true,
            CacheError::FileOpen { .. } => true,
            CacheError::FileRead { .. } => true,
            CacheError::FileWrite { .. } => true,
            CacheError::FileRemove { .. } => true,
            CacheError::FileRename { .. } => true,
            CacheError::CacheDirRead { .. } => true,
            _ => false,
        }
    }
}

} // verus!
