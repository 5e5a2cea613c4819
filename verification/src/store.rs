//! The store pipeline: the steps that take an upload from nothing to a ready
//! entry, and what is undone when a step fails.
//!
//! The pipeline decides and the caller acts. The caller performs the action
//! that the pipeline names, tells it how that went, and gets the next action.
//! The metadata file is written last: until then no reader can take the
//! upload for stored.

use crate::duplicates::{
    handle_duplicates, index_json, index_with, index_without, is_held_by_other, texts,
    DuplicateMap,
};
use crate::entry::{CacheEntry, CacheEntryView, EntryState};
use crate::error::CacheError;
use crate::id::EntryId;
use crate::layout::{
    data_file_name, data_file_name_of, data_path, duplicates_file_name_text, duplicates_path,
    meta_file_name_of, meta_path, path_in, temp_data_file_name_of, temp_data_path, CacheConfig,
};
use crate::metadata::Metadata;
use crate::size::Size;
use crate::upload_info::UploadInfo;
use vstd::prelude::*;

verus! {

/// How far the storing of an upload has come.
#[derive(Debug, Clone, Copy, PartialEq, Eq, Structural)]
pub enum StoreStage {
    /// Nothing has been asked for yet.
    Uninitialized,
    /// The metadata file is being created.
    CreatingMeta,
    /// The temporary data file is being created.
    CreatingTemp,
    /// The upload is being compressed into the temporary data file.
    Streaming,
    /// The index, which now lists the upload, is being written.
    PersistingIndex,
    /// The temporary data file is being renamed, or removed as a duplicate.
    Placing,
    /// The metadata is being written.
    WritingMetadata,
    /// The upload is stored.
    Ready,
    /// A step failed; what was done is to be undone.
    Failed,
}

/// What the caller is to do next.
#[derive(Debug, Clone, Copy, PartialEq, Eq, Structural)]
pub enum StoreAction {
    /// Create the metadata file; it must not exist.
    CreateMeta,
    /// Create the temporary data file; it must not exist.
    CreateTemp,
    /// Compress the upload into the temporary data file.
    Stream,
    /// Write the index text over the index file.
    WriteIndex,
    /// Remove the temporary data file: the content is stored already.
    RemoveTemp,
    /// Rename the temporary data file to the data file.
    RenameTemp,
    /// Write the metadata into the metadata file.
    WriteMetadata,
    /// Take the entry: the upload is stored.
    Finish,
    /// Undo what the rollback lists, and report its error.
    Abort,
    /// Nothing: the pipeline did not await this event.
    Nothing,
}

/// How the action that the pipeline asked for went.
#[derive(Debug)]
pub enum StoreEvent {
    /// The action was done.
    Done,
    /// The action failed.
    Failed { why: String },
    /// The upload was compressed into the temporary data file.
    Streamed { size: Size, hash: String },
    /// The upload could not be taken in.
    StreamFailed { error: CacheError },
}

/// The kind of an event, without what it carries.
#[derive(Debug, Clone, Copy, PartialEq, Eq, Structural)]
pub enum EventKind {
    Done,
    Failed,
    Streamed,
    StreamFailed,
}

impl StoreEvent {
    pub open spec fn spec_kind(&self) -> EventKind {
        match self {
            StoreEvent::Done => EventKind::Done,
            StoreEvent::Failed { .. } => EventKind::Failed,
            StoreEvent::Streamed { .. } => EventKind::Streamed,
            StoreEvent::StreamFailed { .. } => EventKind::StreamFailed,
        }
    }

    #[verifier::when_used_as_spec(spec_kind)]
    pub fn kind(&self) -> (kind: EventKind)
        ensures
            kind == self.spec_kind(),
    {
        match self {
            StoreEvent::Done => EventKind::Done,
            StoreEvent::Failed { .. } => EventKind::Failed,
            StoreEvent::Streamed { .. } => EventKind::Streamed,
            StoreEvent::StreamFailed { .. } => EventKind::StreamFailed,
        }
    }
}

/// Whether a pipeline at `stage` awaits an event of this kind.
pub open spec fn awaits(stage: StoreStage, kind: EventKind) -> bool {
    match stage {
        StoreStage::CreatingMeta
        | StoreStage::CreatingTemp
        | StoreStage::PersistingIndex
        | StoreStage::Placing
        | StoreStage::WritingMetadata => kind == EventKind::Done || kind == EventKind::Failed,
        StoreStage::Streaming => kind == EventKind::Streamed || kind == EventKind::StreamFailed,
        StoreStage::Uninitialized | StoreStage::Ready | StoreStage::Failed => false,
    }
}

/// The stage and the action that follow an event. `duplicate` tells whether
/// the content was found to be stored already.
pub open spec fn step(stage: StoreStage, kind: EventKind, duplicate: bool) -> (
    StoreStage,
    StoreAction,
) {
    if !awaits(stage, kind) {
        (stage, StoreAction::Nothing)
    } else if kind == EventKind::Failed || kind == EventKind::StreamFailed {
        (StoreStage::Failed, StoreAction::Abort)
    } else {
        match stage {
            StoreStage::CreatingMeta => (StoreStage::CreatingTemp, StoreAction::CreateTemp),
            StoreStage::CreatingTemp => (StoreStage::Streaming, StoreAction::Stream),
            StoreStage::Streaming => (StoreStage::PersistingIndex, StoreAction::WriteIndex),
            StoreStage::PersistingIndex => (
                StoreStage::Placing,
                if duplicate {
                    StoreAction::RemoveTemp
                } else {
                    StoreAction::RenameTemp
                },
            ),
            StoreStage::Placing => (StoreStage::WritingMetadata, StoreAction::WriteMetadata),
            _ => (StoreStage::Ready, StoreAction::Finish),
        }
    }
}

/// Whether the index lists the upload while the pipeline is at `stage`.
pub open spec fn is_registered_at(stage: StoreStage) -> bool {
    stage == StoreStage::PersistingIndex || stage == StoreStage::Placing || stage
        == StoreStage::WritingMetadata
}

/// What is undone when storing fails.
#[derive(Debug)]
pub struct Rollback {
    /// The failure that ended the upload.
    pub error: CacheError,
    /// The paths of the files to remove. A removal that fails is to be
    /// logged; it does not replace the error.
    pub remove: Vec<String>,
    /// The index without the upload, as JSON text, where the index file is to
    /// be written again.
    pub index_text: Option<String>,
}

/// The storing of one upload.
#[derive(Debug)]
pub struct StorePipeline {
    config: CacheConfig,
    id: EntryId,
    info: UploadInfo,
    stage: StoreStage,
    size: Size,
    hash: String,
    duplicate: bool,
    index_text: String,
    rollback: Option<Rollback>,
}

/// What a `StorePipeline` holds, as plain values.
pub struct StorePipelineView {
    pub directory: Seq<char>,
    pub id: u128,
    pub name: Seq<char>,
    pub extension: Seq<char>,
    pub stage: StoreStage,
    pub size: Size,
    pub hash: Seq<char>,
    pub duplicate: bool,
    pub index_text: Seq<char>,
}

impl StorePipelineView {
    /// The path of the upload's metadata file.
    pub open spec fn meta_path(self) -> Seq<char> {
        path_in(self.directory, meta_file_name_of(self.id))
    }

    /// The path of the upload's temporary data file.
    pub open spec fn temp_path(self) -> Seq<char> {
        path_in(self.directory, temp_data_file_name_of(self.id))
    }

    /// The path of the data file that holds content with the upload's hash.
    pub open spec fn data_path(self) -> Seq<char> {
        path_in(self.directory, data_file_name_of(self.hash))
    }

    /// The path of the index file.
    pub open spec fn index_path(self) -> Seq<char> {
        path_in(self.directory, duplicates_file_name_text())
    }
}

impl View for StorePipeline {
    type V = StorePipelineView;

    closed spec fn view(&self) -> StorePipelineView {
        StorePipelineView {
            directory: self.config@.directory,
            id: self.id@,
            name: self.info@.name,
            extension: self.info@.extension,
            stage: self.stage,
            size: self.size,
            hash: self.hash@,
            duplicate: self.duplicate,
            index_text: self.index_text@,
        }
    }
}

/// Whether `error` is the failure of `stage` for the cause `why`: the file
/// failure of the step, with the path of the file that the step worked on.
pub open spec fn is_step_failure(
    error: CacheError,
    pipeline: StorePipelineView,
    why: Seq<char>,
) -> bool {
    match pipeline.stage {
        StoreStage::CreatingMeta => error matches CacheError::FileCreate { file, why: cause }
            && file@ == pipeline.meta_path() && cause@ == why,
        StoreStage::CreatingTemp => error matches CacheError::FileCreate { file, why: cause }
            && file@ == pipeline.temp_path() && cause@ == why,
        StoreStage::PersistingIndex => error matches CacheError::FileWrite { file, why: cause }
            && file@ == pipeline.index_path() && cause@ == why,
        StoreStage::Placing => if pipeline.duplicate {
            error matches CacheError::FileRemove { file, why: cause } && file@
                == pipeline.temp_path() && cause@ == why
        } else {
            error matches CacheError::FileRename { file, why: cause } && file@
                == pipeline.temp_path() && cause@ == why
        },
        StoreStage::WritingMetadata => error matches CacheError::Serialization {
            context,
            why: cause,
        } && context@ == "writing meta data"@ && cause@ == why,
        _ => false,
    }
}

/// The paths of the files that are removed when a step fails at `stage`. The
/// metadata file goes once it was made, the temporary data file while it may
/// exist. The data file goes only where this upload made it, by renaming, and
/// the index, with the upload withdrawn, lists nobody under its hash.
pub open spec fn files_to_remove(
    pipeline: StorePipelineView,
    index_after: Map<Seq<char>, Seq<u128>>,
) -> Seq<Seq<char>> {
    match pipeline.stage {
        StoreStage::CreatingTemp => seq![pipeline.meta_path()],
        StoreStage::Streaming | StoreStage::PersistingIndex | StoreStage::Placing => seq![
            pipeline.meta_path(),
            pipeline.temp_path(),
        ],
        StoreStage::WritingMetadata => if !pipeline.duplicate && !index_after.contains_key(
            pipeline.hash,
        ) {
            seq![pipeline.meta_path(), pipeline.data_path()]
        } else {
            seq![pipeline.meta_path()]
        },
        _ => Seq::empty(),
    }
}

impl StorePipeline {
    /// What is to be undone, once the pipeline has failed.
    pub closed spec fn spec_rollback(&self) -> Option<Rollback> {
        self.rollback
    }

    /// A pipeline for one upload, at which nothing has been asked for yet:
    /// it knows neither size nor hash, and has no index text to write.
    pub fn new(config: CacheConfig, id: EntryId, info: UploadInfo) -> (pipeline: Self)
        ensures
            pipeline@.directory == config@.directory,
            pipeline@.id == id@,
            pipeline@.name == info@.name,
            pipeline@.extension == info@.extension,
            pipeline@.stage == StoreStage::Uninitialized,
            pipeline@.size.original() == 0,
            pipeline@.size.compressed() == 0,
            pipeline@.hash == Seq::<char>::empty(),
            !pipeline@.duplicate,
            pipeline@.index_text == Seq::<char>::empty(),
            pipeline.spec_rollback() is None,
    {
        Self {
            config,
            id,
            info,
            stage: StoreStage::Uninitialized,
            size: Size::new(0, 0),
            hash: String::new(),
            duplicate: false,
            index_text: String::new(),
            rollback: None,
        }
    }

    pub fn stage(&self) -> (stage: StoreStage)
        ensures
            stage == self@.stage,
    {
        self.stage
    }

    /// Whether the pipeline stands between listing the upload in the index
    /// and placing its data file. From the event that leads here to the one
    /// that leads on, the caller must keep every other store and delete away
    /// from the index and from the data files.
    pub fn in_critical_section(&self) -> (inside: bool)
        ensures
            inside == (self@.stage == StoreStage::PersistingIndex || self@.stage
                == StoreStage::Placing),
    {
        self.stage == StoreStage::PersistingIndex || self.stage == StoreStage::Placing
    }

    pub fn meta_path(&self) -> (path: String)
        ensures
            path@ == self@.meta_path(),
    {
        meta_path(&self.config, &self.id)
    }

    pub fn temp_path(&self) -> (path: String)
        ensures
            path@ == self@.temp_path(),
    {
        temp_data_path(&self.config, &self.id)
    }

    /// The path of the data file. It means something once the upload has been
    /// streamed and its hash is known.
    pub fn data_path(&self) -> (path: String)
        ensures
            path@ == self@.data_path(),
    {
        let name = data_file_name(self.hash.as_str());
        data_path(&self.config, name.as_str())
    }

    pub fn index_path(&self) -> (path: String)
        ensures
            path@ == self@.index_path(),
    {
        duplicates_path(&self.config)
    }

    /// The text to write into the index file, at the action `WriteIndex`.
    pub fn index_text(&self) -> (text: &String)
        ensures
            text@ == self@.index_text,
    {
        &self.index_text
    }

    /// The metadata to write, at the action `WriteMetadata`.
    pub fn metadata(&self) -> (metadata: Metadata)
        ensures
            metadata@.name == self@.name,
            metadata@.extension == self@.extension,
            metadata@.size == self@.size,
            metadata@.data_file_name == data_file_name_of(self@.hash),
    {
        Metadata::new(
            self.info.name().clone(),
            self.info.extension().clone(),
            self.size,
            data_file_name(self.hash.as_str()),
        )
    }

    /// What is to be undone, at the action `Abort`.
    pub fn rollback(&self) -> (rollback: &Option<Rollback>)
        ensures
            *rollback == self.spec_rollback(),
    {
        &self.rollback
    }

    /// What is to be undone, handed over.
    pub fn into_rollback(self) -> (rollback: Option<Rollback>)
        ensures
            rollback == self.spec_rollback(),
    {
        self.rollback
    }

    /// The entry of the stored upload, at the action `Finish`: none unless
    /// the pipeline is ready.
    pub fn into_entry(self) -> (entry: Option<CacheEntry>)
        ensures
            entry is Some <==> self@.stage == StoreStage::Ready,
            entry matches Some(stored) ==> stored@ == (CacheEntryView {
                id: self@.id,
                name: self@.name,
                extension: self@.extension,
                size: self@.size,
                data_file_name: data_file_name_of(self@.hash),
                state: EntryState::Ready,
            }),
    {
        if self.stage != StoreStage::Ready {
            return None;
        }
        let name = data_file_name(self.hash.as_str());
        let metadata = Metadata::new(
            self.info.name().clone(),
            self.info.extension().clone(),
            self.size,
            name,
        );
        Some(CacheEntry::from_metadata(self.id, metadata, true))
    }

    /// Begins: asks for the metadata file to be created. A pipeline that has
    /// begun already asks for nothing.
    pub fn start(&mut self) -> (action: StoreAction)
        ensures
            old(self)@.stage == StoreStage::Uninitialized ==> action == StoreAction::CreateMeta
                && final(self)@ == (StorePipelineView {
                stage: StoreStage::CreatingMeta,
                ..old(self)@
            }),
            old(self)@.stage != StoreStage::Uninitialized ==> action == StoreAction::Nothing
                && final(self)@ == old(self)@,
            final(self).spec_rollback() == old(self).spec_rollback(),
    {
        if self.stage == StoreStage::Uninitialized {
            self.stage = StoreStage::CreatingMeta;
            StoreAction::CreateMeta
        } else {
            StoreAction::Nothing
        }
    }
    /// Ends the pipeline in failure.
    fn fail(&mut self, error: CacheError, remove: Vec<String>, index_text: Option<String>) -> (action:
        StoreAction)
        ensures
            action == StoreAction::Abort,
            final(self)@ == (StorePipelineView { stage: StoreStage::Failed, ..old(self)@ }),
            final(self).spec_rollback() == Some(Rollback { error, remove, index_text }),
    {
        self.stage = StoreStage::Failed;
        self.rollback = Some(Rollback { error, remove, index_text });
        StoreAction::Abort
    }

    /// Takes the upload out of the index again, and gives the index text to
    /// write back.
    fn withdraw(&self, index: &mut DuplicateMap) -> (index_text: Option<String>)
        ensures
            final(index)@ == index_without(old(index)@, self@.id),
            index_text matches Some(text) && text@ == index_json(final(index)@),
    {
        let _ = index.remove(&self.id);
        match index.write_to_file() {
            Ok(text) => Some(text),
            Err(_) => None,
        }
    }

    /// The paths of the metadata file and of the temporary data file.
    fn meta_and_temp(&self) -> (paths: Vec<String>)
        ensures
            texts(paths@) == seq![self@.meta_path(), self@.temp_path()],
    {
        let mut paths: Vec<String> = Vec::new();
        paths.push(self.meta_path());
        paths.push(self.temp_path());
        assert(texts(paths@) == seq![self@.meta_path(), self@.temp_path()]);
        paths
    }

    /// Takes in the hash and the size of the streamed upload, with the index
    /// text that came of listing the upload: goes on to write the index, or
    /// withdraws the upload where the index could not be written down. A
    /// pipeline that is not streaming does nothing.
    pub fn streamed(
        &mut self,
        size: Size,
        hash: String,
        duplicate: bool,
        encoded: Result<String, CacheError>,
        index: &mut DuplicateMap,
    ) -> (action: StoreAction)
        ensures
            old(self)@.stage != StoreStage::Streaming ==> {
                &&& action == StoreAction::Nothing
                &&& final(self)@ == old(self)@
                &&& final(index)@ == old(index)@
                &&& final(self).spec_rollback() == old(self).spec_rollback()
            },
            old(self)@.stage == StoreStage::Streaming ==> match encoded {
                Ok(text) => {
                    &&& action == StoreAction::WriteIndex
                    &&& final(self)@ == (StorePipelineView {
                        stage: StoreStage::PersistingIndex,
                        size,
                        hash: hash@,
                        duplicate,
                        index_text: text@,
                        ..old(self)@
                    })
                    &&& final(index)@ == old(index)@
                    &&& final(self).spec_rollback() == old(self).spec_rollback()
                },
                Err(error) => {
                    &&& action == StoreAction::Abort
                    &&& final(self)@ == (StorePipelineView {
                        stage: StoreStage::Failed,
                        ..old(self)@
                    })
                    &&& final(index)@ == index_without(old(index)@, old(self)@.id)
                    &&& final(self).spec_rollback() matches Some(rollback)
                    &&& rollback.error == error
                    &&& texts(rollback.remove@) == seq![
                        old(self)@.meta_path(),
                        old(self)@.temp_path(),
                    ]
                    &&& rollback.index_text is None
                },
            },
    {
        if self.stage != StoreStage::Streaming {
            return StoreAction::Nothing;
        }
        self.streamed_at_streaming(size, hash, duplicate, encoded, index)
    }

    fn streamed_at_streaming(
        &mut self,
        size: Size,
        hash: String,
        duplicate: bool,
        encoded: Result<String, CacheError>,
        index: &mut DuplicateMap,
    ) -> (action: StoreAction)
        requires
            old(self)@.stage == StoreStage::Streaming,
        ensures
            encoded matches Ok(text) ==> {
                &&& action == StoreAction::WriteIndex
                &&& final(self)@ == (StorePipelineView {
                    stage: StoreStage::PersistingIndex,
                    size,
                    hash: hash@,
                    duplicate,
                    index_text: text@,
                    ..old(self)@
                })
                &&& final(index)@ == old(index)@
                &&& final(self).spec_rollback() == old(self).spec_rollback()
            },
            encoded matches Err(error) ==> {
                &&& action == StoreAction::Abort
                &&& final(self)@ == (StorePipelineView { stage: StoreStage::Failed, ..old(self)@ })
                &&& final(index)@ == index_without(old(index)@, old(self)@.id)
                &&& final(self).spec_rollback() matches Some(rollback)
                &&& rollback.error == error
                &&& texts(rollback.remove@) == seq![old(self)@.meta_path(), old(self)@.temp_path()]
                &&& rollback.index_text is None
            },
    {
        match encoded {
            Ok(text) => {
                self.size = size;
                self.hash = hash;
                self.duplicate = duplicate;
                self.index_text = text;
                self.stage = StoreStage::PersistingIndex;
                StoreAction::WriteIndex
            },
            Err(error) => {
                let _ = index.remove(&self.id);
                let remove = self.meta_and_temp();
                self.fail(error, remove, None)
            },
        }
    }

    /// Takes in how the last action went, and names the next one.
    ///
    /// An event that the pipeline does not await changes nothing. An action
    /// that went well takes the pipeline one stage on. A failure ends the
    /// pipeline: it withdraws the upload from the index where the index lists
    /// it, and leaves a rollback, with the index text to write back where the
    /// index had changed. When the upload has been streamed, the pipeline
    /// lists it in the index, finds out whether its content is stored already,
    /// and asks for the index to be written.
    pub fn advance(&mut self, event: StoreEvent, index: &mut DuplicateMap) -> (action:
        StoreAction)
        ensures
            (final(self)@.stage, action) == step(
                old(self)@.stage,
                event.kind(),
                final(self)@.duplicate,
            ),
            final(self)@.directory == old(self)@.directory,
            final(self)@.id == old(self)@.id,
            final(self)@.name == old(self)@.name,
            final(self)@.extension == old(self)@.extension,
            !awaits(old(self)@.stage, event.kind()) ==> {
                &&& final(self)@ == old(self)@
                &&& final(index)@ == old(index)@
                &&& final(self).spec_rollback() == old(self).spec_rollback()
            },
            awaits(old(self)@.stage, event.kind()) && event is Done ==> {
                &&& final(self)@ == (StorePipelineView {
                    stage: final(self)@.stage,
                    ..old(self)@
                })
                &&& final(index)@ == old(index)@
                &&& final(self).spec_rollback() == old(self).spec_rollback()
            },
            awaits(old(self)@.stage, event.kind()) ==> match event {
                StoreEvent::Done => true,
                StoreEvent::Streamed { size, hash } => {
                    let listed = index_with(old(index)@, hash@, old(self)@.id);
                    &&& final(index)@ == listed
                    &&& final(self)@ == (StorePipelineView {
                        stage: StoreStage::PersistingIndex,
                        size,
                        hash: hash@,
                        duplicate: is_held_by_other(old(index)@, hash@, old(self)@.id),
                        index_text: index_json(listed),
                        ..old(self)@
                    })
                    &&& final(self).spec_rollback() == old(self).spec_rollback()
                },
                StoreEvent::StreamFailed { error } => {
                    &&& final(index)@ == old(index)@
                    &&& final(self)@ == (StorePipelineView {
                        stage: StoreStage::Failed,
                        ..old(self)@
                    })
                    &&& final(self).spec_rollback() matches Some(rollback)
                    &&& rollback.error == error
                    &&& texts(rollback.remove@) == seq![
                        old(self)@.meta_path(),
                        old(self)@.temp_path(),
                    ]
                    &&& rollback.index_text is None
                },
                StoreEvent::Failed { why } => {
                    &&& final(index)@ == if is_registered_at(old(self)@.stage) {
                        index_without(old(index)@, old(self)@.id)
                    } else {
                        old(index)@
                    }
                    &&& final(self)@ == (StorePipelineView {
                        stage: StoreStage::Failed,
                        ..old(self)@
                    })
                    &&& final(self).spec_rollback() matches Some(rollback)
                    &&& is_step_failure(rollback.error, old(self)@, why@)
                    &&& texts(rollback.remove@) == files_to_remove(old(self)@, final(index)@)
                    &&& rollback.index_text is Some <==> is_registered_at(old(self)@.stage)
                    &&& rollback.index_text matches Some(text) ==> text@ == index_json(
                        final(index)@,
                    )
                },
            },
    {
        match self.stage {
            StoreStage::Uninitialized | StoreStage::Ready | StoreStage::Failed => StoreAction::Nothing,
            StoreStage::Streaming => match event {
                StoreEvent::Streamed { size, hash } => {
                    let duplicate = handle_duplicates(index, hash.clone(), self.id);
                    let encoded = index.write_to_file();
                    self.streamed(size, hash, duplicate, encoded, index)
                },
                StoreEvent::StreamFailed { error } => {
                    let remove = self.meta_and_temp();
                    self.fail(error, remove, None)
                },
                _ => StoreAction::Nothing,
            },
            StoreStage::CreatingMeta => match event {
                StoreEvent::Done => {
                    self.stage = StoreStage::CreatingTemp;
                    StoreAction::CreateTemp
                },
                StoreEvent::Failed { why } => {
                    let error = CacheError::FileCreate { file: self.meta_path(), why };
                    let remove: Vec<String> = Vec::new();
                    assert(texts(remove@) == Seq::<Seq<char>>::empty());
                    self.fail(error, remove, None)
                },
                _ => StoreAction::Nothing,
            },
            StoreStage::CreatingTemp => match event {
                StoreEvent::Done => {
                    self.stage = StoreStage::Streaming;
                    StoreAction::Stream
                },
                StoreEvent::Failed { why } => {
                    let error = CacheError::FileCreate { file: self.temp_path(), why };
                    let mut remove: Vec<String> = Vec::new();
                    remove.push(self.meta_path());
                    assert(texts(remove@) == seq![self@.meta_path()]);
                    self.fail(error, remove, None)
                },
                _ => StoreAction::Nothing,
            },
            StoreStage::PersistingIndex => match event {
                StoreEvent::Done => {
                    self.stage = StoreStage::Placing;
                    if self.duplicate {
                        StoreAction::RemoveTemp
                    } else {
                        StoreAction::RenameTemp
                    }
                },
                StoreEvent::Failed { why } => {
                    let error = CacheError::FileWrite { file: self.index_path(), why };
                    let index_text = self.withdraw(index);
                    let remove = self.meta_and_temp();
                    self.fail(error, remove, index_text)
                },
                _ => StoreAction::Nothing,
            },
            StoreStage::Placing => match event {
                StoreEvent::Done => {
                    self.stage = StoreStage::WritingMetadata;
                    StoreAction::WriteMetadata
                },
                StoreEvent::Failed { why } => {
                    let error = if self.duplicate {
                        CacheError::FileRemove { file: self.temp_path(), why }
                    } else {
                        CacheError::FileRename { file: self.temp_path(), why }
                    };
                    let index_text = self.withdraw(index);
                    let remove = self.meta_and_temp();
                    self.fail(error, remove, index_text)
                },
                _ => StoreAction::Nothing,
            },
            StoreStage::WritingMetadata => match event {
                StoreEvent::Done => {
                    self.stage = StoreStage::Ready;
                    StoreAction::Finish
                },
                StoreEvent::Failed { why } => {
                    let error = CacheError::Serialization {
                        context: "writing meta data".to_owned(),
                        why,
                    };
                    let index_text = self.withdraw(index);
                    let still_held = index.get(self.hash.as_str()).is_some();
                    let mut remove: Vec<String> = Vec::new();
                    remove.push(self.meta_path());
                    if !self.duplicate && !still_held {
                        remove.push(self.data_path());
                        assert(texts(remove@) == seq![self@.meta_path(), self@.data_path()]);
                    } else {
                        assert(texts(remove@) == seq![self@.meta_path()]);
                    }
                    self.fail(error, remove, index_text)
                },
                _ => StoreAction::Nothing,
            },
        }
    }
}

impl CacheEntry {
    /// Begins to store a new upload: a pipeline for it, and its first action.
    pub fn store_new(config: CacheConfig, id: EntryId, info: UploadInfo) -> (begun: (
        StorePipeline,
        StoreAction,
    ))
        ensures
            begun.1 == StoreAction::CreateMeta,
            begun.0@.directory == config@.directory,
            begun.0@.id == id@,
            begun.0@.name == info@.name,
            begun.0@.extension == info@.extension,
            begun.0@.stage == StoreStage::CreatingMeta,
            begun.0@.size.original() == 0,
            begun.0@.size.compressed() == 0,
            begun.0@.hash == Seq::<char>::empty(),
            !begun.0@.duplicate,
            begun.0@.index_text == Seq::<char>::empty(),
            begun.0.spec_rollback() is None,
    {
        let mut pipeline = StorePipeline::new(config, id, info);
        let action = pipeline.start();
        (pipeline, action)
    }
}

/// What an action does to the files of the cache directory, when the caller
/// performs it and it goes well: the paths that are there afterwards.
pub open spec fn performed(
    files: Set<Seq<char>>,
    action: StoreAction,
    pipeline: StorePipelineView,
) -> Set<Seq<char>> {
    match action {
        StoreAction::CreateMeta => files.insert(pipeline.meta_path()),
        StoreAction::CreateTemp => files.insert(pipeline.temp_path()),
        StoreAction::WriteIndex => files.insert(pipeline.index_path()),
        StoreAction::RemoveTemp => files.remove(pipeline.temp_path()),
        StoreAction::RenameTemp => files.remove(pipeline.temp_path()).insert(pipeline.data_path()),
        _ => files,
    }
}

/// The action that a pipeline at `stage` has asked for and awaits the
/// outcome of.
pub open spec fn asked_at(stage: StoreStage, duplicate: bool) -> StoreAction {
    match stage {
        StoreStage::CreatingMeta => StoreAction::CreateMeta,
        StoreStage::CreatingTemp => StoreAction::CreateTemp,
        StoreStage::Streaming => StoreAction::Stream,
        StoreStage::PersistingIndex => StoreAction::WriteIndex,
        StoreStage::Placing => if duplicate {
            StoreAction::RemoveTemp
        } else {
            StoreAction::RenameTemp
        },
        StoreStage::WritingMetadata => StoreAction::WriteMetadata,
        StoreStage::Ready => StoreAction::Finish,
        StoreStage::Failed => StoreAction::Abort,
        StoreStage::Uninitialized => StoreAction::Nothing,
    }
}

/// The files that are there while a pipeline is at `stage`, where `files`
/// were there when it began and every action before was performed.
pub open spec fn files_at(
    files: Set<Seq<char>>,
    stage: StoreStage,
    pipeline: StorePipelineView,
) -> Set<Seq<char>> {
    let with_meta = files.insert(pipeline.meta_path());
    let with_temp = with_meta.insert(pipeline.temp_path());
    let with_index = with_temp.insert(pipeline.index_path());
    match stage {
        StoreStage::CreatingTemp => with_meta,
        StoreStage::Streaming | StoreStage::PersistingIndex => with_temp,
        StoreStage::Placing => with_index,
        StoreStage::WritingMetadata | StoreStage::Ready => performed(
            with_index,
            asked_at(StoreStage::Placing, pipeline.duplicate),
            pipeline,
        ),
        _ => files,
    }
}

/// The files that are left when the paths of a rollback have been removed.
pub open spec fn cleaned(files: Set<Seq<char>>, remove: Seq<Seq<char>>) -> Set<Seq<char>> {
    files.difference(remove.to_set())
}

} // verus!