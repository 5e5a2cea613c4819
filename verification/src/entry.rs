//! One upload as the engine holds it in memory, and the plans for reading
//! and deleting it.

use crate::duplicates::{index_json, index_without, is_listed_under, texts, DuplicateMap};
use crate::error::CacheError;
use crate::id::EntryId;
use crate::id::parsed_uuid;
use crate::layout::{
    data_path, duplicates_file_name_text, duplicates_path, meta_candidate, meta_extension,
    meta_file_id, meta_file_name_of, meta_path, path_in, CacheConfig,
};
use crate::upload_info::{extension_of, stem_of};
use crate::metadata::Metadata;
use crate::size::Size;
use crate::upload_info::UploadInfo;
use vstd::prelude::*;

verus! {

/// Where an entry stands in its life.
#[derive(Debug, Clone, Copy, PartialEq, Eq, Structural)]
pub enum EntryState {
    /// Made, with no file written yet.
    Uninitialized,
    /// Its files are being written.
    Storing,
    /// Its metadata is final and its content can be read.
    Ready,
    /// Storing failed and was rolled back.
    Failed,
    /// Its files have been removed.
    Deleted,
}

/// Whether an entry in state `from` may pass to state `to`.
pub open spec fn may_follow(from: EntryState, to: EntryState) -> bool {
    match (from, to) {
        (EntryState::Uninitialized, EntryState::Storing) => true,
        (EntryState::Storing, EntryState::Ready) => true,
        (EntryState::Storing, EntryState::Failed) => true,
        (EntryState::Ready, EntryState::Deleted) => true,
        _ => false,
    }
}

/// One upload: its identifier, what the client said of it, its size, the name
/// of the data file that holds its content, and its state.
#[derive(Debug, Clone)]
pub struct CacheEntry {
    uuid: EntryId,
    upload_info: UploadInfo,
    size: Size,
    data_file_name: String,
    state: EntryState,
}

/// What a `CacheEntry` holds, as plain values.
pub struct CacheEntryView {
    pub id: u128,
    pub name: Seq<char>,
    pub extension: Seq<char>,
    pub size: Size,
    pub data_file_name: Seq<char>,
    pub state: EntryState,
}

impl View for CacheEntry {
    type V = CacheEntryView;

    closed spec fn view(&self) -> CacheEntryView {
        CacheEntryView {
            id: self.uuid@,
            name: self.upload_info@.name,
            extension: self.upload_info@.extension,
            size: self.size,
            data_file_name: self.data_file_name@,
            state: self.state,
        }
    }
}

/// The files that a deletion removes.
#[derive(Debug)]
pub struct Removal {
    /// The path of the entry's metadata file.
    pub meta_path: String,
    /// The path of the entry's data file, where no other entry holds it.
    pub data_path: Option<String>,
}

/// What a deletion does, in this order: it writes the index, and then,
/// unless the index was found at fault, it removes the files.
#[derive(Debug)]
pub struct DeletePlan {
    /// The path of the file that holds the index.
    pub index_path: String,
    /// The index without the entry, as JSON text.
    pub index_text: String,
    /// The files to remove once the index is written, or the fault that was
    /// found in the index.
    pub verdict: Result<Removal, CacheError>,
}

/// The one hash under which `id` is listed, where there is exactly one.
pub open spec fn sole_hash(index: Map<Seq<char>, Seq<u128>>, id: u128) -> Option<Seq<char>> {
    if exists|hash: Seq<char>| lists_only_under(index, id, hash) {
        Some(choose|hash: Seq<char>| lists_only_under(index, id, hash))
    } else {
        None
    }
}

/// Whether `id` is listed under `hash` and under no other hash.
pub open spec fn lists_only_under(index: Map<Seq<char>, Seq<u128>>, id: u128, hash: Seq<char>) -> bool {
    forall|other: Seq<char>| #[trigger] is_listed_under(index, id, other) <==> other == hash
}

impl CacheEntry {
    /// An entry for an upload that has not begun.
    pub fn new(uuid: EntryId, upload_info: UploadInfo) -> (entry: Self)
        ensures
            entry@.id == uuid@,
            entry@.name == upload_info@.name,
            entry@.extension == upload_info@.extension,
            entry@.size.original() == 0,
            entry@.size.compressed() == 0,
            entry@.data_file_name == Seq::<char>::empty(),
            entry@.state == EntryState::Uninitialized,
    {
        Self {
            uuid,
            upload_info,
            size: Size::new(0, 0),
            data_file_name: String::new(),
            state: EntryState::Uninitialized,
        }
    }

    /// The entry that a metadata file describes.
    pub fn from_metadata(uuid: EntryId, metadata: Metadata, ready: bool) -> (entry: Self)
        ensures
            entry@.id == uuid@,
            entry@.name == metadata@.name,
            entry@.extension == metadata@.extension,
            entry@.size == metadata@.size,
            entry@.data_file_name == metadata@.data_file_name,
            entry@.state == if ready {
                EntryState::Ready
            } else {
                EntryState::Uninitialized
            },
    {
        Self {
            uuid,
            upload_info: UploadInfo::new(metadata.name().clone(), metadata.extension().clone()),
            size: *metadata.size(),
            data_file_name: metadata.data_file_name().clone(),
            state: if ready {
                EntryState::Ready
            } else {
                EntryState::Uninitialized
            },
        }
    }

    /// The ready entry that a metadata file describes, given the file's name
    /// and what it holds. The name must give the identifier: a file whose
    /// stem is no identifier, or whose extension is not `meta`, is refused.
    pub fn from_file(file_name: &str, metadata: Metadata) -> (result: Result<Self, CacheError>)
        ensures
            parsed_uuid(stem_of(file_name@)) is None ==> (result matches Err(
                CacheError::InvalidId { value },
            ) && value@ == file_name@),
            parsed_uuid(stem_of(file_name@)) is Some && extension_of(file_name@) != Some(
                meta_extension(),
            ) ==> (result matches Err(CacheError::WrongFileType { expected, actual })
                && expected@ == meta_extension() && actual@ == match extension_of(file_name@) {
                Some(extension) => extension,
                None => Seq::<char>::empty(),
            }),
            meta_candidate(file_name@) matches Some(id) ==> (result matches Ok(entry) && entry@
                == (CacheEntryView {
                id,
                name: metadata@.name,
                extension: metadata@.extension,
                size: metadata@.size,
                data_file_name: metadata@.data_file_name,
                state: EntryState::Ready,
            })),
            forall|id: u128|
                file_name@ == meta_file_name_of(id) ==> (result matches Ok(entry) && entry@.id
                    == id),
    {
        let id = meta_file_id(file_name)?;
        Ok(Self::from_metadata(id, metadata, true))
    }

    pub fn upload_info(&self) -> (info: &UploadInfo)
        ensures
            info@.name == self@.name,
            info@.extension == self@.extension,
    {
        &self.upload_info
    }

    pub fn uuid(&self) -> (id: EntryId)
        ensures
            id@ == self@.id,
    {
        self.uuid
    }

    pub fn state(&self) -> (state: EntryState)
        ensures
            state == self@.state,
    {
        self.state
    }

    pub fn is_ready(&self) -> (ready: bool)
        ensures
            ready == (self@.state == EntryState::Ready),
    {
        self.state == EntryState::Ready
    }

    pub fn data_size(&self) -> (size: Size)
        ensures
            size == self@.size,
    {
        self.size
    }

    pub fn data_file_name(&self) -> (name: &String)
        ensures
            name@ == self@.data_file_name,
    {
        &self.data_file_name
    }

    /// Moves the entry to `next`, where its state allows that. Returns whether
    /// it did; otherwise nothing changes.
    pub fn transition(&mut self, next: EntryState) -> (moved: bool)
        ensures
            moved == may_follow(old(self)@.state, next),
            moved ==> final(self)@ == (CacheEntryView { state: next, ..old(self)@ }),
            !moved ==> final(self)@ == old(self)@,
    {
        let allowed = match (self.state, next) {
            (EntryState::Uninitialized, EntryState::Storing) => true,
            (EntryState::Storing, EntryState::Ready) => true,
            (EntryState::Storing, EntryState::Failed) => true,
            (EntryState::Ready, EntryState::Deleted) => true,
            _ => false,
        };
        if allowed {
            self.state = next;
        }
        allowed
    }

    /// Records the size of the content while the entry is being stored.
    /// Returns whether it did: the size of an entry in any other state does
    /// not change.
    pub fn set_data_size(&mut self, size: Size) -> (recorded: bool)
        ensures
            recorded == (old(self)@.state == EntryState::Storing),
            recorded ==> final(self)@ == (CacheEntryView { size, ..old(self)@ }),
            !recorded ==> final(self)@ == old(self)@,
    {
        if self.state == EntryState::Storing {
            self.size = size;
            true
        } else {
            false
        }
    }

    /// Marks an entry that is being stored as ready, with the name of the data
    /// file that holds its content. Returns whether it did: an entry in any
    /// other state does not change.
    pub fn set_ready(&mut self, data_file_name: String) -> (marked: bool)
        ensures
            marked == (old(self)@.state == EntryState::Storing),
            marked ==> final(self)@ == (CacheEntryView {
                state: EntryState::Ready,
                data_file_name: data_file_name@,
                ..old(self)@
            }),
            !marked ==> final(self)@ == old(self)@,
    {
        if self.state == EntryState::Storing {
            self.data_file_name = data_file_name;
            self.state = EntryState::Ready;
            true
        } else {
            false
        }
    }

    /// The metadata that describes the entry on disk.
    pub fn build_metadata(&self) -> (metadata: Metadata)
        ensures
            metadata@.name == self@.name,
            metadata@.extension == self@.extension,
            metadata@.size == self@.size,
            metadata@.data_file_name == self@.data_file_name,
    {
        Metadata::new(
            self.upload_info.name().clone(),
            self.upload_info.extension().clone(),
            self.size,
            self.data_file_name.clone(),
        )
    }

    /// What is needed to read the entry's content: what the client said of the
    /// upload, and the path of the data file. Only a ready entry can be read.
    pub fn load(&self, config: &CacheConfig) -> (result: Result<(UploadInfo, String), CacheError>)
        ensures
            self@.state == EntryState::Ready ==> (result matches Ok((info, path)) && info@.name
                == self@.name && info@.extension == self@.extension && path@ == path_in(
                config@.directory,
                self@.data_file_name,
            )),
            self@.state != EntryState::Ready ==> (result matches Err(CacheError::NotReady { id })
                && id@ == self@.id),
    {
        if !self.is_ready() {
            return Err(CacheError::NotReady { id: self.uuid });
        }
        Ok((self.upload_info.duplicate(), data_path(config, self.data_file_name.as_str())))
    }
    /// Plans the deletion of the entry: takes it out of the index and decides
    /// which files go. The data file goes only where the index lists no other
    /// upload under its hash.
    ///
    /// The index must list the entry under exactly one hash. Where it does
    /// not, the plan carries that fault, and no file is to be removed.
    pub fn delete(&self, index: &mut DuplicateMap, config: &CacheConfig) -> (result: Result<
        DeletePlan,
        CacheError,
    >)
        ensures
            final(index)@ == index_without(old(index)@, self@.id),
            result matches Ok(plan) && {
                &&& plan.index_path@ == path_in(config@.directory, duplicates_file_name_text())
                &&& plan.index_text@ == index_json(final(index)@)
                &&& match sole_hash(old(index)@, self@.id) {
                    Some(hash) => {
                        &&& plan.verdict matches Ok(removal)
                        &&& removal.meta_path@ == path_in(
                            config@.directory,
                            meta_file_name_of(self@.id),
                        )
                        &&& removal.data_path is None <==> final(index)@.contains_key(hash)
                        &&& removal.data_path matches Some(path) ==> path@ == path_in(
                            config@.directory,
                            self@.data_file_name,
                        )
                    },
                    None => {
                        &&& plan.verdict matches Err(
                            CacheError::DuplicateIndexInvariantViolation { id, hashes },
                        )
                        &&& id@ == self@.id
                        &&& texts(hashes@).no_duplicates()
                        &&& forall|hash: Seq<char>|
                            texts(hashes@).contains(hash) <==> is_listed_under(
                                old(index)@,
                                self@.id,
                                hash,
                            )
                    },
                }
            },
    {
        let ghost before = index@;
        let ghost id = self@.id;
        let hashes = index.remove(&self.uuid);
        let index_text = index.write_to_file()?;
        let index_path = duplicates_path(config);
        let ghost names = texts(hashes@);
        if hashes.len() != 1 {
            proof {
                if exists|hash: Seq<char>| lists_only_under(before, id, hash) {
                    let hash = choose|hash: Seq<char>| lists_only_under(before, id, hash);
                    assert(is_listed_under(before, id, hash));
                    assert(names.contains(hash));
                    assert(names.len() >= 2);
                    assert(names.contains(names[0]));
                    assert(names.contains(names[1]));
                    assert(is_listed_under(before, id, names[0]));
                    assert(is_listed_under(before, id, names[1]));
                    assert(names[0] == hash && names[1] == hash);
                    assert(false);
                }
            }
            return Ok(
                DeletePlan {
                    index_path,
                    index_text,
                    verdict: Err(
                        CacheError::DuplicateIndexInvariantViolation { id: self.uuid, hashes },
                    ),
                },
            );
        }
        let shared = index.get(hashes[0].as_str()).is_some();
        proof {
            let hash = names[0];
            assert(hashes@[0]@ == hash);
            assert(names.contains(names[0]));
            assert forall|other: Seq<char>| #[trigger]
                is_listed_under(before, id, other) <==> other == hash by {
                if is_listed_under(before, id, other) {
                    assert(names.contains(other));
                }
            }
            assert(lists_only_under(before, id, hash));
            let chosen = choose|hash: Seq<char>| lists_only_under(before, id, hash);
            assert(is_listed_under(before, id, hash));
            assert(chosen == hash);
        }
        let data_path = if shared {
            None
        } else {
            Some(data_path(config, self.data_file_name.as_str()))
        };
        Ok(
            DeletePlan {
                index_path,
                index_text,
                verdict: Ok(Removal { meta_path: meta_path(config, &self.uuid), data_path }),
            },
        )
    }
}

/// Whether `error` says that the file at `path` could not be removed, for the
/// cause `why`.
pub open spec fn is_removal_failure(error: CacheError, path: Seq<char>, why: Seq<char>) -> bool {
    error matches CacheError::FileRemove { file, why: cause } && file@ == path && cause@ == why
}

impl Removal {
    /// What the deletion came to, given how the removal of the metadata file
    /// and of the data file went. A plan without a data file looks at the
    /// first result only.
    pub fn conclude(&self, meta: Result<(), String>, data: Result<(), String>) -> (result: Result<
        (),
        CacheError,
    >)
        ensures
            match (meta, data, self.data_path) {
                (Ok(_), _, None) => result is Ok,
                (Err(why), _, None) => result matches Err(error) && is_removal_failure(
                    error,
                    self.meta_path@,
                    why@,
                ),
                (Ok(_), Ok(_), Some(_)) => result is Ok,
                (Ok(_), Err(why), Some(path)) => result matches Err(error) && is_removal_failure(
                    error,
                    path@,
                    why@,
                ),
                (Err(why), Ok(_), Some(_)) => result matches Err(error) && is_removal_failure(
                    error,
                    self.meta_path@,
                    why@,
                ),
                (Err(meta_why), Err(data_why), Some(path)) => {
                    &&& result matches Err(CacheError::Multiple(errors))
                    &&& errors@.len() == 2
                    &&& is_removal_failure(errors@[0], self.meta_path@, meta_why@)
                    &&& is_removal_failure(errors@[1], path@, data_why@)
                },
            },
    {
        match &self.data_path {
            None => match meta {
                Ok(_) => Ok(()),
                Err(why) => Err(CacheError::FileRemove { file: self.meta_path.clone(), why }),
            },
            Some(path) => match (meta, data) {
                (Ok(_), Ok(_)) => Ok(()),
                (Ok(_), Err(why)) => Err(CacheError::FileRemove { file: path.clone(), why }),
                (Err(why), Ok(_)) => Err(
                    CacheError::FileRemove { file: self.meta_path.clone(), why },
                ),
                (Err(meta_why), Err(data_why)) => {
                    let mut errors: Vec<CacheError> = Vec::new();
                    errors.push(
                        CacheError::FileRemove { file: self.meta_path.clone(), why: meta_why },
                    );
                    errors.push(CacheError::FileRemove { file: path.clone(), why: data_why });
                    Err(CacheError::Multiple(errors))
                },
            },
        }
    }
}

impl DeletePlan {
    /// The failure of a deletion whose index could not be written.
    pub fn index_write_failed(&self, why: String) -> (error: CacheError)
        ensures
            error matches CacheError::FileWrite { file, why: cause } && file@ == self.index_path@
                && cause@ == why@,
    {
        CacheError::FileWrite { file: self.index_path.clone(), why }
    }
}

} // verus!