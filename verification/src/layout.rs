//! Where the files of the cache lie: every file stands directly in one
//! configured directory, and its name tells what it holds.

use crate::error::CacheError;
use crate::id::{hyphenated_text, parsed_uuid, EntryId};
use crate::upload_info::{extension_of, get_file_extension, get_file_name, last_dot, stem_of};
use vstd::prelude::*;

verus! {

/// The extension of a metadata file, without the dot.
pub open spec fn meta_extension() -> Seq<char> {
    seq!['m', 'e', 't', 'a']
}

pub open spec fn meta_suffix() -> Seq<char> {
    seq!['.', 'm', 'e', 't', 'a']
}

pub open spec fn temp_data_suffix() -> Seq<char> {
    seq!['.', 't', 'e', 'm', 'p', '_', 'd', 'a', 't', 'a']
}

pub open spec fn data_suffix() -> Seq<char> {
    seq!['.', 'd', 'a', 't', 'a']
}

/// The name of the file that holds the duplicate index.
pub open spec fn duplicates_file_name_text() -> Seq<char> {
    seq!['d', 'u', 'p', 'l', 'i', 'c', 'a', 't', 'e', 's', '.', 'j', 's', 'o', 'n']
}

/// The name of the metadata file of an upload.
pub open spec fn meta_file_name_of(id: u128) -> Seq<char> {
    hyphenated_text(id) + meta_suffix()
}

/// The name of the file that takes an upload's compressed content until its
/// hash is known.
pub open spec fn temp_data_file_name_of(id: u128) -> Seq<char> {
    hyphenated_text(id) + temp_data_suffix()
}

/// The name of the file that holds the content with a given hash.
pub open spec fn data_file_name_of(hash: Seq<char>) -> Seq<char> {
    hash + data_suffix()
}

/// The path of a file of the cache directory.
pub open spec fn path_in(directory: Seq<char>, file_name: Seq<char>) -> Seq<char> {
    directory + seq!['/'] + file_name
}

/// What the engine is configured with: the directory of the cache, the
/// largest upload it takes, in bytes before compression, and the level at
/// which it compresses.
#[derive(Debug, Clone)]
pub struct CacheConfig {
    directory: String,
    max_upload_size: u64,
    compression_level: i32,
}

/// What a `CacheConfig` holds, as plain values.
pub struct CacheConfigView {
    pub directory: Seq<char>,
    pub max_upload_size: u64,
    pub compression_level: i32,
}

impl View for CacheConfig {
    type V = CacheConfigView;

    closed spec fn view(&self) -> CacheConfigView {
        CacheConfigView {
            directory: self.directory@,
            max_upload_size: self.max_upload_size,
            compression_level: self.compression_level,
        }
    }
}

impl CacheConfig {
    pub fn new(directory: String, max_upload_size: u64, compression_level: i32) -> (config: Self)
        ensures
            config@.directory == directory@,
            config@.max_upload_size == max_upload_size,
            config@.compression_level == compression_level,
    {
        Self { directory, max_upload_size, compression_level }
    }

    pub fn directory(&self) -> (directory: &String)
        ensures
            directory@ == self@.directory,
    {
        &self.directory
    }

    pub fn max_upload_size(&self) -> (bytes: u64)
        ensures
            bytes == self@.max_upload_size,
    {
        self.max_upload_size
    }

    pub fn compression_level(&self) -> (level: i32)
        ensures
            level == self@.compression_level,
    {
        self.compression_level
    }
}

pub fn meta_file_name(id: &EntryId) -> (name: String)
    ensures
        name@ == meta_file_name_of(id@),
{
    proof {
        reveal_strlit(".meta");
    }
    assert(".meta"@ == meta_suffix());
    id.hyphenated().concat(".meta")
}

pub fn temp_data_file_name(id: &EntryId) -> (name: String)
    ensures
        name@ == temp_data_file_name_of(id@),
{
    proof {
        reveal_strlit(".temp_data");
    }
    assert(".temp_data"@ == temp_data_suffix());
    id.hyphenated().concat(".temp_data")
}

pub fn data_file_name(hash: &str) -> (name: String)
    ensures
        name@ == data_file_name_of(hash@),
{
    proof {
        reveal_strlit(".data");
    }
    assert(".data"@ == data_suffix());
    hash.to_owned().concat(".data")
}

fn join(directory: &String, file_name: &str) -> (path: String)
    ensures
        path@ == path_in(directory@, file_name@),
{
    proof {
        reveal_strlit("/");
    }
    assert("/"@ == seq!['/']);
    directory.clone().concat("/").concat(file_name)
}

/// The path of the metadata file of an upload.
pub fn meta_path(config: &CacheConfig, id: &EntryId) -> (path: String)
    ensures
        path@ == path_in(config@.directory, meta_file_name_of(id@)),
{
    let name = meta_file_name(id);
    join(&config.directory, name.as_str())
}

/// The path of a data file, given its name as the metadata records it.
pub fn data_path(config: &CacheConfig, name: &str) -> (path: String)
    ensures
        path@ == path_in(config@.directory, name@),
{
    join(&config.directory, name)
}

/// The path of the temporary data file of an upload.
pub fn temp_data_path(config: &CacheConfig, id: &EntryId) -> (path: String)
    ensures
        path@ == path_in(config@.directory, temp_data_file_name_of(id@)),
{
    let name = temp_data_file_name(id);
    join(&config.directory, name.as_str())
}

/// The path of the file that holds the duplicate index.
pub fn duplicates_path(config: &CacheConfig) -> (path: String)
    ensures
        path@ == path_in(config@.directory, duplicates_file_name_text()),
{
    proof {
        reveal_strlit("duplicates.json");
    }
    assert("duplicates.json"@ == duplicates_file_name_text());
    join(&config.directory, "duplicates.json")
}

/// The identifier that a file name stands for, where the file is taken for a
/// metadata file: its extension is `meta`, and the part before it is read as
/// an identifier.
pub open spec fn meta_candidate(file_name: Seq<char>) -> Option<u128> {
    if extension_of(file_name) == Some(meta_extension()) {
        parsed_uuid(stem_of(file_name))
    } else {
        None
    }
}

/// The metadata files among the first `n` names of a directory, in the order
/// of the directory: for each its place in the listing and its identifier.
pub open spec fn meta_files_among(names: Seq<Seq<char>>, n: int) -> Seq<(int, u128)>
    decreases n,
{
    if n <= 0 {
        Seq::empty()
    } else {
        match meta_candidate(names[n - 1]) {
            Some(id) => meta_files_among(names, n - 1).push((n - 1, id)),
            None => meta_files_among(names, n - 1),
        }
    }
}

/// A text that ends in a dot and a tail without dots has its last dot there.
pub proof fn lemma_last_dot_before_tail(front: Seq<char>, tail: Seq<char>)
    requires
        forall|i: int| 0 <= i < tail.len() ==> #[trigger] tail[i] != '.',
    ensures
        last_dot(front + seq!['.'] + tail) == front.len(),
        stem_of(front + seq!['.'] + tail) == front,
        extension_of(front + seq!['.'] + tail) == Some(tail),
    decreases tail.len(),
{
    let whole = front + seq!['.'] + tail;
    if tail.len() == 0 {
        assert(whole.last() == '.');
    } else {
        let shorter = tail.drop_last();
        assert(whole.last() == tail.last());
        assert(whole.drop_last() == front + seq!['.'] + shorter);
        lemma_last_dot_before_tail(front, shorter);
    }
    assert(whole.subrange(0, front.len() as int) == front);
    assert(whole.subrange(front.len() as int + 1, whole.len() as int) == tail);
}

/// The name of an upload's metadata file gives the upload's text back as its
/// stem and `meta` as its extension; the name of its temporary data file has
/// another extension, so it is never taken for a metadata file.
pub proof fn lemma_file_names(id: u128)
    ensures
        stem_of(meta_file_name_of(id)) == hyphenated_text(id),
        extension_of(meta_file_name_of(id)) == Some(meta_extension()),
        meta_candidate(meta_file_name_of(id)) == parsed_uuid(hyphenated_text(id)),
        meta_candidate(temp_data_file_name_of(id)) is None,
{
    let text = hyphenated_text(id);
    assert(meta_suffix() == seq!['.'] + meta_extension());
    assert(meta_file_name_of(id) == text + seq!['.'] + meta_extension());
    lemma_last_dot_before_tail(text, meta_extension());
    let temp_tail = seq!['t', 'e', 'm', 'p', '_', 'd', 'a', 't', 'a'];
    assert(temp_data_suffix() == seq!['.'] + temp_tail);
    assert(temp_data_file_name_of(id) == text + seq!['.'] + temp_tail);
    lemma_last_dot_before_tail(text, temp_tail);
    assert(temp_tail.len() != meta_extension().len());
}

/// The name of a data file is never taken for a metadata file, whatever the
/// hash.
pub proof fn lemma_data_file_is_no_meta_file(hash: Seq<char>)
    ensures
        meta_candidate(data_file_name_of(hash)) is None,
{
    let tail = seq!['d', 'a', 't', 'a'];
    assert(data_suffix() == seq!['.'] + tail);
    assert(data_file_name_of(hash) == hash + seq!['.'] + tail);
    lemma_last_dot_before_tail(hash, tail);
    assert(tail[0] != meta_extension()[0]);
}

/// A metadata file that was found in the cache directory.
#[derive(Debug, Clone, Copy)]
pub struct MetaFile {
    /// The place of the file name in the listing.
    pub index: usize,
    /// The identifier that the file name gives.
    pub id: EntryId,
}

/// The places and identifiers of a sequence of metadata files.
pub open spec fn meta_files_view(files: Seq<MetaFile>) -> Seq<(int, u128)> {
    Seq::new(files.len(), |i: int| (files[i].index as int, files[i].id@))
}

/// Decides what a file name stands for, given what the parser made of the
/// part before its last dot: the identifier must be readable, and the
/// extension must be `meta`.
pub fn meta_file_id_from(file_name: &str, parsed: Option<u128>) -> (result: Result<
    EntryId,
    CacheError,
>)
    ensures
        parsed is None ==> (result matches Err(CacheError::InvalidId { value }) && value@
            == file_name@),
        parsed is Some && extension_of(file_name@) != Some(meta_extension()) ==> (
        result matches Err(CacheError::WrongFileType { expected, actual }) && expected@
            == meta_extension() && actual@ == match extension_of(file_name@) {
            Some(extension) => extension,
            None => Seq::<char>::empty(),
        }),
        parsed is Some && extension_of(file_name@) == Some(meta_extension()) ==> (
        result matches Ok(id) && id@ == parsed.unwrap()),
{
    proof {
        reveal_strlit("meta");
    }
    assert("meta"@ == meta_extension());
    let value = match parsed {
        Some(value) => value,
        None => {
            return Err(CacheError::InvalidId { value: file_name.to_owned() });
        },
    };
    let expected = "meta".to_owned();
    match get_file_extension(file_name) {
        Some(actual) => {
            if actual == expected {
                Ok(EntryId::from_u128(value))
            } else {
                Err(CacheError::WrongFileType { expected, actual })
            }
        },
        None => Err(CacheError::WrongFileType { expected, actual: String::new() }),
    }
}

/// The identifier of the upload whose metadata a file holds, going by the
/// file's name. The name that `meta_file_name` gives for an identifier leads
/// back to that identifier.
pub fn meta_file_id(file_name: &str) -> (result: Result<EntryId, CacheError>)
    ensures
        parsed_uuid(stem_of(file_name@)) is None ==> (result matches Err(
            CacheError::InvalidId { value },
        ) && value@ == file_name@),
        parsed_uuid(stem_of(file_name@)) is Some && extension_of(file_name@) != Some(
            meta_extension(),
        ) ==> (result matches Err(CacheError::WrongFileType { expected, actual }) && expected@
            == meta_extension() && actual@ == match extension_of(file_name@) {
            Some(extension) => extension,
            None => Seq::<char>::empty(),
        }),
        meta_candidate(file_name@) matches Some(value) ==> (result matches Ok(id) && id@
            == value),
        forall|value: u128|
            file_name@ == meta_file_name_of(value) ==> (result matches Ok(id) && id@ == value),
{
    let stem = get_file_name(file_name);
    let parsed = EntryId::parse(stem.as_str());
    proof {
        assert forall|value: u128| file_name@ == meta_file_name_of(value) implies parsed is Some
            && parsed.unwrap()@ == value && extension_of(file_name@) == Some(
            meta_extension(),
        ) by {
            lemma_file_names(value);
        }
    }
    let plain = match parsed {
        Some(id) => Some(id.as_u128()),
        None => None,
    };
    meta_file_id_from(file_name, plain)
}

/// Picks the metadata files out of the listing of the cache directory. A
/// name with another extension is passed over, and so is one whose stem is
/// no identifier.
pub fn init_cache_list_from_cache_dir(names: &Vec<String>) -> (found: Vec<MetaFile>)
    ensures
        meta_files_view(found@) == meta_files_among(
            Seq::new(names@.len(), |i: int| names@[i]@),
            names@.len() as int,
        ),
{
    let ghost texts = Seq::new(names@.len(), |i: int| names@[i]@);
    let mut found: Vec<MetaFile> = Vec::new();
    let mut i: usize = 0;
    while i < names.len()
        invariant
            i <= names@.len(),
            texts == Seq::new(names@.len(), |i: int| names@[i]@),
            meta_files_view(found@) == meta_files_among(texts, i as int),
        decreases names@.len() - i,
    {
        let ghost before = meta_files_view(found@);
        assert(texts[i as int] == names@[i as int]@);
        match meta_file_id(names[i].as_str()) {
            Ok(id) => {
                found.push(MetaFile { index: i, id });
                assert(meta_files_view(found@) == before.push((i as int, id@)));
            },
            Err(_) => {
                assert(meta_files_view(found@) == before);
            },
        }
        i += 1;
    }
    found
}

} // verus!