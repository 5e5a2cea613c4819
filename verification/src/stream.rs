//! Taking an upload in: its bytes are compressed chunk by chunk, counted, and
//! hashed as they leave the compressor.
//!
//! The caller reads the chunks and appends what comes back to the temporary
//! data file. Nothing here holds more than one chunk at a time.

use crate::error::CacheError;
use crate::layout::CacheConfig;
use crate::size::Size;
use sha2::Sha256;
use vstd::prelude::*;
use zstd::stream::write::Encoder;

verus! {

/// A streaming compressor: a `zstd::stream::write::Encoder` that writes into
/// a vector. What it was made with, what it has taken in and what it has
/// handed out are named by `compressor_level`, `compressor_taken` and
/// `compressor_handed`.
#[verifier::external_body]
pub struct Compressor {
    inner: Encoder<'static, Vec<u8>>,
}

/// A running SHA-256 computation: a `sha2::Sha256`. What it has taken in is
/// named by `hashed_bytes`.
#[verifier::external_body]
pub struct ContentHasher {
    inner: Sha256,
}

/// The level that a compressor was made with.
pub uninterp spec fn compressor_level(compressor: Compressor) -> i32;

/// The bytes that a compressor has taken in, in their order.
pub uninterp spec fn compressor_taken(compressor: Compressor) -> Seq<u8>;

/// The compressed bytes that a compressor has handed out, in their order.
pub uninterp spec fn compressor_handed(compressor: Compressor) -> Seq<u8>;

/// Whether zstd, compressing at `level` and having taken in `content`, takes
/// in `chunk` as well. Going by its source, zstd refuses input on this path
/// only where it cannot get the memory that it works in, which is counted
/// here like any other want of memory.
pub uninterp spec fn zstd_accepts(level: i32, content: Seq<u8>, chunk: Seq<u8>) -> bool;

/// The compressed stream that zstd writes for `content` at `level`, from its
/// first byte to the end of the frame, or nothing where zstd fails to end the
/// stream, which by its source it does only for want of memory. The stream
/// does not depend on the pieces in which the content came: zstd gathers its
/// input into blocks of a fixed size before it compresses them.
pub uninterp spec fn zstd_frame(level: i32, content: Seq<u8>) -> Option<Seq<u8>>;

/// The bytes that a hasher has taken in, in their order.
pub uninterp spec fn hashed_bytes(hasher: ContentHasher) -> Seq<u8>;

/// The SHA-256 digest of a sequence of bytes, as 64 lowercase hexadecimal
/// digits.
pub uninterp spec fn sha256_hex(bytes: Seq<u8>) -> Seq<char>;

/// The hash under which a content is stored: the digest of its compressed
/// stream. Equal content, compressed at one level, has one hash.
pub open spec fn content_hash(level: i32, content: Seq<u8>) -> Seq<char> {
    sha256_hex(zstd_frame(level, content).unwrap())
}

/// Calls `zstd::stream::write::Encoder::new` with an empty vector as the
/// writer. The call succeeds at every level: zstd brings a level that is out
/// of its range to the nearest one in it.
#[verifier::external_body]
fn encoder_new(level: i32) -> (encoder: Result<Compressor, String>)
    ensures
        encoder is Ok,
        encoder matches Ok(fresh) ==> compressor_level(fresh) == level,
        encoder matches Ok(fresh) ==> compressor_taken(fresh) == Seq::<u8>::empty(),
        encoder matches Ok(fresh) ==> compressor_handed(fresh) == Seq::<u8>::empty(),
{
    match Encoder::new(Vec::new(), level) {
        Ok(inner) => Ok(Compressor { inner }),
        Err(error) => Err(error.to_string()),
    }
}

/// Calls `std::io::Write::write_all` on the encoder, which takes the bytes in
/// and compresses them into its writer. The error is the one that the call
/// returned, in words.
#[verifier::external_body]
fn encoder_write(compressor: Compressor, bytes: &[u8]) -> (written: Result<Compressor, String>)
    ensures
        written is Ok <==> zstd_accepts(
            compressor_level(compressor),
            compressor_taken(compressor),
            bytes@,
        ),
        written matches Ok(next) ==> compressor_level(next) == compressor_level(compressor),
        written matches Ok(next) ==> compressor_taken(next) == compressor_taken(compressor)
            + bytes@,
        written matches Ok(next) ==> compressor_handed(next) == compressor_handed(compressor),
{
    let mut next = compressor;
    match std::io::Write::write_all(&mut next.inner, bytes) {
        Ok(()) => Ok(next),
        Err(error) => Err(error.to_string()),
    }
}

/// Calls `Encoder::get_mut` and takes what the writer holds, leaving it
/// empty: the compressor hands out the bytes that it has written since it
/// last did.
#[verifier::external_body]
fn encoder_drain(compressor: Compressor) -> (drained: (Compressor, Vec<u8>))
    ensures
        compressor_level(drained.0) == compressor_level(compressor),
        compressor_taken(drained.0) == compressor_taken(compressor),
        compressor_handed(drained.0) == compressor_handed(compressor) + drained.1@,
{
    let mut next = compressor;
    let bytes = std::mem::take(next.inner.get_mut());
    (next, bytes)
}

/// Calls `Encoder::finish`, which ends the compressed stream and hands the
/// writer back with what the stream still owed. With what the compressor
/// handed out before, that is the whole compressed stream of what it took
/// in. The error is the one that the call returned, in words.
#[verifier::external_body]
fn encoder_finish(compressor: Compressor) -> (bytes: Result<Vec<u8>, String>)
    ensures
        bytes is Ok <==> zstd_frame(
            compressor_level(compressor),
            compressor_taken(compressor),
        ) is Some,
        bytes matches Ok(tail) ==> zstd_frame(
            compressor_level(compressor),
            compressor_taken(compressor),
        ) == Some(compressor_handed(compressor) + tail@),
{
    match compressor.inner.finish() {
        Ok(bytes) => Ok(bytes),
        Err(error) => Err(error.to_string()),
    }
}

/// Calls `sha2::Digest::new` for SHA-256: a hasher that has taken in nothing.
#[verifier::external_body]
fn hasher_new() -> (hasher: ContentHasher)
    ensures
        hashed_bytes(hasher) == Seq::<u8>::empty(),
{
    ContentHasher { inner: sha2::Digest::new() }
}

/// Calls `sha2::Digest::update`: the hasher takes in the bytes after those
/// that it holds.
#[verifier::external_body]
fn hasher_update(hasher: ContentHasher, bytes: &[u8]) -> (next: ContentHasher)
    ensures
        hashed_bytes(next) == hashed_bytes(hasher) + bytes@,
{
    let mut next = hasher;
    sha2::Digest::update(&mut next.inner, bytes);
    next
}

/// Calls `sha2::Digest::finalize` and formats the digest with `{:x}`: the
/// SHA-256 digest of all that the hasher took in, as lowercase hexadecimal
/// text.
#[verifier::external_body]
fn hasher_finish(hasher: ContentHasher) -> (hash: String)
    ensures
        hash@ == sha256_hex(hashed_bytes(hasher)),
{
    format!("{:x}", sha2::Digest::finalize(hasher.inner))
}

/// The largest value of a `u64`, or `n` where it is smaller.
pub open spec fn saturated(n: nat) -> u64 {
    if n > u64::MAX {
        u64::MAX
    } else {
        n as u64
    }
}

/// What came of a whole upload.
#[derive(Debug)]
pub struct Stored {
    /// The last compressed bytes, still to be appended to the data file.
    pub tail: Vec<u8>,
    /// The byte counts before and after compression.
    pub size: Size,
    /// The hash of all the compressed bytes, as lowercase hexadecimal text.
    pub hash: String,
}

/// An upload in progress.
pub struct UploadSink {
    compressor: Compressor,
    hasher: ContentHasher,
    limit: u64,
    original: u64,
    stored: u64,
}

impl UploadSink {
    #[verifier::type_invariant]
    spec fn well_formed(&self) -> bool {
        &&& self.stored == saturated(hashed_bytes(self.hasher).len())
        &&& hashed_bytes(self.hasher) == compressor_handed(self.compressor)
        &&& self.original == compressor_taken(self.compressor).len()
    }

    /// The bytes of the upload that the sink has taken in, in their order.
    pub closed spec fn taken(&self) -> Seq<u8> {
        compressor_taken(self.compressor)
    }

    /// All the compressed bytes that the sink has handed out.
    pub closed spec fn emitted(&self) -> Seq<u8> {
        hashed_bytes(self.hasher)
    }

    /// The level at which the sink compresses.
    pub closed spec fn level(&self) -> i32 {
        compressor_level(self.compressor)
    }

    /// The largest upload that the sink takes, in bytes.
    pub closed spec fn limit(&self) -> u64 {
        self.limit
    }

    /// Decides what a chunk does to the count of an upload, given what the
    /// compressor said of it: a failure of the compressor comes first, then
    /// the limit.
    pub fn account(original: u64, chunk_len: usize, limit: u64, written: Result<(), String>) -> (total:
        Result<u64, CacheError>)
        ensures
            written matches Err(why) ==> total matches Err(CacheError::Compression { why: cause })
                && cause == why,
            written is Ok && original + chunk_len > limit ==> total matches Err(
                CacheError::FileSizeExceeded,
            ),
            written is Ok && original + chunk_len <= limit ==> total == Ok::<u64, CacheError>(
                (original + chunk_len) as u64,
            ),
    {
        match written {
            Err(why) => Err(CacheError::Compression { why }),
            Ok(()) => {
                if chunk_len as u64 > limit || original > limit - chunk_len as u64 {
                    Err(CacheError::FileSizeExceeded)
                } else {
                    Ok(original + chunk_len as u64)
                }
            },
        }
    }

    /// A sink for one upload, which has taken in nothing yet. It compresses
    /// at the level of the configuration and takes what the configuration
    /// allows.
    pub fn new(config: &CacheConfig) -> (sink: Result<Self, CacheError>)
        ensures
            sink matches Ok(fresh) && fresh.taken() == Seq::<u8>::empty() && fresh.emitted()
                == Seq::<u8>::empty() && fresh.limit() == config@.max_upload_size && fresh.level()
                == config@.compression_level,
    {
        match encoder_new(config.compression_level()) {
            Ok(compressor) => Ok(
                Self {
                    compressor,
                    hasher: hasher_new(),
                    limit: config.max_upload_size(),
                    original: 0,
                    stored: 0,
                },
            ),
            Err(why) => Err(CacheError::Compression { why }),
        }
    }

    /// Takes in the next chunk of the upload. Returns the sink and the
    /// compressed bytes that are to be appended to the data file now.
    ///
    /// The chunk is taken where the compressor takes it and the upload stays
    /// within the limit. A chunk that the compressor refuses fails the upload
    /// with `Compression`; one that it takes and that brings the upload over
    /// the limit fails it with `FileSizeExceeded`.
    pub fn push(self, chunk: &[u8]) -> (result: Result<(Self, Vec<u8>), CacheError>)
        ensures
            result is Ok <==> zstd_accepts(self.level(), self.taken(), chunk@) && self.taken().len()
                + chunk@.len() <= self.limit(),
            result matches Ok((next, bytes)) ==> {
                &&& next.taken() == self.taken() + chunk@
                &&& next.emitted() == self.emitted() + bytes@
                &&& next.level() == self.level()
                &&& next.limit() == self.limit()
            },
            result matches Err(error) ==> if zstd_accepts(self.level(), self.taken(), chunk@) {
                error is FileSizeExceeded
            } else {
                error is Compression
            },
    {
        proof {
            use_type_invariant(&self);
        }
        let Self { compressor, hasher, limit, original, stored } = self;
        let (taken, written) = match encoder_write(compressor, chunk) {
            Ok(next) => (Some(next), Ok(())),
            Err(why) => (None, Err(why)),
        };
        let total = Self::account(original, chunk.len(), limit, written)?;
        let (compressor, bytes) = match taken {
            Some(compressor) => encoder_drain(compressor),
            None => unreached(),
        };
        let hasher = hasher_update(hasher, bytes.as_slice());
        let stored = stored.saturating_add(bytes.len() as u64);
        Ok((Self { compressor, hasher, limit, original: total, stored }, bytes))
    }

    /// Ends the upload. Returns the last compressed bytes, the two byte
    /// counts, and the hash of the content.
    ///
    /// What the sink handed out, with the last bytes behind it, is the
    /// compressed stream of what it took in; the hash is the digest of that
    /// stream. The upload fails with `Compression` where the compressor
    /// cannot end the stream.
    pub fn finish(self) -> (result: Result<Stored, CacheError>)
        ensures
            result is Ok <==> zstd_frame(self.level(), self.taken()) is Some,
            result matches Ok(stored) ==> {
                &&& zstd_frame(self.level(), self.taken()) == Some(
                    self.emitted() + stored.tail@,
                )
                &&& stored.size.original() == self.taken().len()
                &&& stored.size.compressed() == saturated(
                    self.emitted().len() + stored.tail@.len(),
                )
                &&& stored.hash@ == content_hash(self.level(), self.taken())
            },
            result matches Err(error) ==> error is Compression,
    {
        proof {
            use_type_invariant(&self);
        }
        let Self { compressor, hasher, limit, original, stored } = self;
        match encoder_finish(compressor) {
            Err(why) => Err(CacheError::Compression { why }),
            Ok(tail) => {
                let hasher = hasher_update(hasher, tail.as_slice());
                let stored = stored.saturating_add(tail.len() as u64);
                let hash = hasher_finish(hasher);
                Ok(Stored { tail, size: Size::new(original, stored), hash })
            },
        }
    }
}

} // verus!
