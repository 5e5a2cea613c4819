//! A content-addressed file cache engine.
//!
//! Uploads are stored compressed under a content hash, so that identical
//! content is kept once however often it is uploaded. This crate holds the
//! decisions of that engine: naming, deduplication, the store pipeline, and
//! the plans for loading and deleting. Reading and writing files is left to
//! the caller, which performs the actions that the engine asks for.

pub mod duplicates;
pub mod entry;
pub mod error;
pub mod id;
pub mod laws;
pub mod layout;
pub mod metadata;
pub mod registry;
pub mod size;
pub mod store;
pub mod stream;
pub mod upload_info;

pub use duplicates::DuplicateMap;
pub use entry::CacheEntry;
pub use error::CacheError;
pub use id::{EntryId, UuidParseError};
pub use layout::CacheConfig;
pub use metadata::Metadata;
pub use registry::Registry;
pub use size::Size;
pub use store::StorePipeline;
pub use stream::UploadSink;
pub use upload_info::UploadInfo;
