//! What holds of the engine as a whole: laws that relate several of its
//! operations, stated over the models that their contracts use.

use crate::duplicates::{
    index_with, index_without, is_held_by_other, is_listed_under, is_pruned, is_unlisted,
    lemma_without, without,
};
use crate::entry::{lists_only_under, sole_hash};
use crate::id::{
    digit_index, has_v4_bits, hyphenated_text, is_hex_char, is_hyphen_position, is_uuid_v4_text,
    lower_hex_digit, nibble_at, v4_char_allowed,
};
use crate::layout::{
    data_file_name_of, data_suffix, duplicates_file_name_text, meta_file_name_of, meta_suffix,
    path_in, temp_data_file_name_of, temp_data_suffix,
};
use crate::store::{
    asked_at, awaits, cleaned, files_at, files_to_remove, performed, step, EventKind,
    StoreAction, StorePipelineView, StoreStage,
};
use vstd::prelude::*;

verus! {

/// Two uploads with the same content share one data file: the first finds
/// the content new, so that its file becomes the data file; the second finds
/// it held by another, so that its own file is dropped; and the index then
/// lists both under the one hash.
pub proof fn lemma_dedup_sharing(
    index: Map<Seq<char>, Seq<u128>>,
    hash: Seq<char>,
    first: u128,
    second: u128,
)
    requires
        first != second,
        !index.contains_key(hash),
    ensures
        !is_held_by_other(index, hash, first),
        is_held_by_other(index_with(index, hash, first), hash, second),
        index_with(index_with(index, hash, first), hash, second)[hash] == seq![first, second],
        index_with(index_with(index, hash, first), hash, second).contains_key(hash),
{
    let one = index_with(index, hash, first);
    assert(one[hash] == seq![first]);
    lemma_without(one[hash], second);
    assert(one[hash][0] == first);
    assert(one[hash].contains(first));
    assert(without(one[hash], second).contains(first));
    let both = index_with(one, hash, second);
    assert(both[hash] == seq![first, second]);
}

/// A data file goes with its last holder: once an upload has left the index,
/// the hash under which it stood is still listed exactly where another
/// upload holds the same content.
pub proof fn lemma_data_file_goes_with_last_holder(
    index: Map<Seq<char>, Seq<u128>>,
    id: u128,
    hash: Seq<char>,
)
    requires
        is_listed_under(index, id, hash),
    ensures
        index_without(index, id).contains_key(hash) <==> is_held_by_other(index, hash, id),
        index_without(index, id).contains_key(hash) <==> exists|other: u128|
            other != id && is_listed_under(index, other, hash),
        forall|other: u128|
            other != id ==> (is_listed_under(index_without(index, id), other, hash)
                <==> is_listed_under(index, other, hash)),
{
    let left = without(index[hash], id);
    lemma_without(index[hash], id);
    if left.len() > 0 {
        assert(left.contains(left[0]));
        assert(left[0] != id);
        assert(is_listed_under(index, left[0], hash));
    }
    if exists|other: u128| other != id && is_listed_under(index, other, hash) {
        let other = choose|other: u128| other != id && is_listed_under(index, other, hash);
        assert(left.contains(other));
    }
    assert forall|other: u128| other != id implies (is_listed_under(
        index_without(index, id),
        other,
        hash,
    ) <==> is_listed_under(index, other, hash)) by {
        if is_listed_under(index, other, hash) {
            assert(left.contains(other));
        }
    }
}

/// Two uploads that share a content can be deleted in either order: after
/// the first deletion the hash is still listed, with the other upload, so
/// that the data file stays; after the second it is listed no more, so that
/// the data file goes.
pub proof fn lemma_dedup_delete_ordering(
    index: Map<Seq<char>, Seq<u128>>,
    hash: Seq<char>,
    first: u128,
    second: u128,
)
    requires
        first != second,
        index.contains_key(hash),
        index[hash] == seq![first, second],
    ensures
        index_without(index, first).contains_key(hash),
        index_without(index, first)[hash] == seq![second],
        !index_without(index_without(index, first), second).contains_key(hash),
        index_without(index, second).contains_key(hash),
        index_without(index, second)[hash] == seq![first],
        !index_without(index_without(index, second), first).contains_key(hash),
{
    let both = seq![first, second];
    assert(both.drop_last() == seq![first]);
    assert(seq![first].drop_last() == Seq::<u128>::empty());
    assert(seq![second].drop_last() == Seq::<u128>::empty());
    assert(without(Seq::<u128>::empty(), first) == Seq::<u128>::empty());
    assert(without(Seq::<u128>::empty(), second) == Seq::<u128>::empty());
    assert(without(seq![first], first) == Seq::<u128>::empty());
    assert(without(seq![second], second) == Seq::<u128>::empty());
    assert(without(seq![first], second) == Seq::<u128>::empty().push(first));
    assert(without(seq![first], second) == seq![first]);
    assert(without(both, second) == seq![first]);
    assert(without(both, first) == Seq::<u128>::empty().push(second));
    assert(without(both, first) == seq![second]);
}

/// Withdrawing an upload that was listed nowhere before it was listed gives
/// the index back as it was: a store that fails leaves no trace in the index.
pub proof fn lemma_withdrawal_restores_index(
    index: Map<Seq<char>, Seq<u128>>,
    hash: Seq<char>,
    id: u128,
)
    requires
        is_pruned(index),
        is_unlisted(index, id),
    ensures
        index_without(index_with(index, hash, id), id) == index,
{
    let listed = index_with(index, hash, id);
    let back = index_without(listed, id);
    assert forall|other: Seq<char>| back.contains_key(other) <==> index.contains_key(other) by {
        if other == hash {
            if index.contains_key(hash) {
                assert(!is_listed_under(index, id, hash));
                lemma_without(index[hash], id);
                assert(listed[hash].drop_last() == index[hash]);
            } else {
                assert(listed[hash] == seq![id]);
                assert(listed[hash].drop_last() == Seq::<u128>::empty());
                assert(without(Seq::<u128>::empty(), id) == Seq::<u128>::empty());
            }
        } else if index.contains_key(other) {
            assert(!is_listed_under(index, id, other));
            lemma_without(index[other], id);
        }
    }
    assert forall|other: Seq<char>| back.contains_key(other) implies back[other]
        == index[other] by {
        assert(!is_listed_under(index, id, other));
        lemma_without(index[other], id);
        if other == hash {
            assert(listed[hash].drop_last() == index[hash]);
        }
    }
    assert(back =~= index);
}

/// An upload is listed under the hash that it was registered with, and, where
/// it was listed nowhere before, under that hash alone: a deletion then finds
/// exactly one hash for it.
pub proof fn lemma_registered_under_one_hash(
    index: Map<Seq<char>, Seq<u128>>,
    hash: Seq<char>,
    id: u128,
)
    requires
        is_unlisted(index, id),
    ensures
        is_listed_under(index_with(index, hash, id), id, hash),
        sole_hash(index_with(index, hash, id), id) == Some(hash),
{
    let listed = index_with(index, hash, id);
    assert(listed[hash][listed[hash].len() - 1] == id);
    assert forall|other: Seq<char>| #[trigger]
        is_listed_under(listed, id, other) <==> other == hash by {
        if other != hash {
            assert(!is_listed_under(index, id, other));
        }
    }
    assert(lists_only_under(listed, id, hash));
    let chosen = choose|other: Seq<char>| lists_only_under(listed, id, other);
    assert(is_listed_under(listed, id, hash));
}

/// The position of a stage on the way of an upload that goes well.
pub open spec fn progress(stage: StoreStage) -> int {
    match stage {
        StoreStage::Uninitialized => 0,
        StoreStage::CreatingMeta => 1,
        StoreStage::CreatingTemp => 2,
        StoreStage::Streaming => 3,
        StoreStage::PersistingIndex => 4,
        StoreStage::Placing => 5,
        StoreStage::WritingMetadata => 6,
        StoreStage::Ready => 7,
        StoreStage::Failed => 8,
    }
}

/// An upload becomes visible last of all. The metadata is written only once
/// the data file is in place, the pipeline is ready only once the metadata is
/// written, and no step is skipped on the way: each event takes the pipeline
/// one stage on, or ends it in failure, or changes nothing. A pipeline that is
/// ready or has failed stays so.
pub proof fn lemma_metadata_is_written_last(stage: StoreStage, kind: EventKind, duplicate: bool)
    ensures
        step(stage, kind, duplicate).1 == StoreAction::WriteMetadata ==> stage
            == StoreStage::Placing && kind == EventKind::Done,
        step(stage, kind, duplicate).1 == StoreAction::Finish <==> stage
            == StoreStage::WritingMetadata && kind == EventKind::Done,
        step(stage, kind, duplicate).0 == StoreStage::Ready ==> stage == StoreStage::Ready || (
        stage == StoreStage::WritingMetadata && kind == EventKind::Done),
        step(stage, kind, duplicate).0 == stage || step(stage, kind, duplicate).0
            == StoreStage::Failed || progress(step(stage, kind, duplicate).0) == progress(stage)
            + 1,
        stage == StoreStage::Ready || stage == StoreStage::Failed ==> step(stage, kind, duplicate)
            == (stage, StoreAction::Nothing),
        step(stage, kind, duplicate).1 == StoreAction::RenameTemp || step(
            stage,
            kind,
            duplicate,
        ).1 == StoreAction::RemoveTemp ==> stage == StoreStage::PersistingIndex && kind
            == EventKind::Done,
{
}

/// Every lowercase hexadecimal digit is a hexadecimal character.
pub proof fn lemma_hex_digits(n: int)
    requires
        0 <= n < 16,
    ensures
        is_hex_char(lower_hex_digit(n)),
        n == 4 ==> lower_hex_digit(n) == '4',
        n == 8 ==> lower_hex_digit(n) == '8',
        n == 9 ==> lower_hex_digit(n) == '9',
        n == 10 ==> lower_hex_digit(n) == 'a',
        n == 11 ==> lower_hex_digit(n) == 'b',
{
}

/// A fresh identifier passes for one when it comes back in a request: the
/// text of a value with the version and variant bits of a random identifier
/// has the shape that requests are held to.
pub proof fn lemma_generated_ids_are_accepted(value: u128)
    requires
        has_v4_bits(value),
    ensures
        is_uuid_v4_text(hyphenated_text(value)),
{
    let text = hyphenated_text(value);
    assert forall|i: int| 0 <= i < 36 implies v4_char_allowed(i, #[trigger] text[i]) by {
        if !is_hyphen_position(i) {
            let shift = (4 * (31 - digit_index(i))) as u128;
            let digit = (value >> shift) & 0xf;
            assert(digit < 16) by (bit_vector)
                requires
                    digit == (value >> shift) & 0xf,
            ;
            lemma_hex_digits(digit as int);
            assert(nibble_at(value, digit_index(i)) == digit as int);
            if i == 14 {
                assert(shift == 76);
            } else if i == 19 {
                assert(shift == 60);
                assert(digit == 8 || digit == 9 || digit == 10 || digit == 11) by (bit_vector)
                    requires
                        digit == (value >> 60u128) & 0xf,
                        (value >> 62u128) & 0x3 == 2,
                ;
            }
        }
    }
}

/// The files of an upload never stand in each other's way: the metadata
/// file, the temporary data file, the data file of any hash and the index
/// file have four different paths.
pub proof fn lemma_paths_differ(pipeline: StorePipelineView)
    ensures
        pipeline.meta_path() != pipeline.temp_path(),
        pipeline.meta_path() != pipeline.data_path(),
        pipeline.meta_path() != pipeline.index_path(),
        pipeline.temp_path() != pipeline.data_path(),
        pipeline.temp_path() != pipeline.index_path(),
        pipeline.data_path() != pipeline.index_path(),
{
    let front = pipeline.directory + seq!['/'];
    let text = hyphenated_text(pipeline.id);
    let meta = pipeline.meta_path();
    let temp = pipeline.temp_path();
    let data = pipeline.data_path();
    let index = pipeline.index_path();
    assert(meta == front + text + meta_suffix());
    assert(temp == front + text + temp_data_suffix());
    assert(data == front + pipeline.hash + data_suffix());
    assert(index == front + duplicates_file_name_text());
    assert(meta.len() == front.len() + 41);
    assert(temp.len() == front.len() + 46);
    assert(index.len() == front.len() + 15);
    assert(meta[meta.len() - 4] == meta_suffix()[1]);
    assert(data[data.len() - 4] == data_suffix()[1]);
    assert(temp[temp.len() - 5] == temp_data_suffix()[5]);
    assert(data[data.len() - 5] == data_suffix()[0]);
    assert(data[data.len() - 1] == data_suffix()[4]);
    assert(index[index.len() - 1] == duplicates_file_name_text()[14]);
}

/// The pipeline and the directory keep step: the action that follows an
/// action that went well is the one that the next stage awaits, and the files
/// at the next stage are those that the action made of the files before.
pub proof fn lemma_files_follow_actions(
    files: Set<Seq<char>>,
    stage: StoreStage,
    pipeline: StorePipelineView,
)
    requires
        awaits(stage, EventKind::Done),
    ensures
        step(stage, EventKind::Done, pipeline.duplicate).1 == asked_at(
            step(stage, EventKind::Done, pipeline.duplicate).0,
            pipeline.duplicate,
        ),
        files_at(files, step(stage, EventKind::Done, pipeline.duplicate).0, pipeline) == performed(
            files_at(files, stage, pipeline),
            asked_at(stage, pipeline.duplicate),
            pipeline,
        ),
{
}

/// An upload that is stored leaves its metadata file, the index file and
/// the data file of its hash, and no temporary data file. Where the content
/// was stored already, no data file comes or goes: there is one data file for
/// one content, however often it is uploaded.
pub proof fn lemma_stored_upload_leaves(files: Set<Seq<char>>, pipeline: StorePipelineView)
    requires
        !files.contains(pipeline.temp_path()),
        pipeline.duplicate ==> files.contains(pipeline.data_path()),
    ensures
        !files_at(files, StoreStage::Ready, pipeline).contains(pipeline.temp_path()),
        files_at(files, StoreStage::Ready, pipeline) == files.insert(pipeline.meta_path()).insert(
            pipeline.index_path(),
        ).insert(pipeline.data_path()),
        pipeline.duplicate ==> files_at(files, StoreStage::Ready, pipeline) == files.insert(
            pipeline.meta_path(),
        ).insert(pipeline.index_path()),
{
    lemma_paths_differ(pipeline);
    let ready = files_at(files, StoreStage::Ready, pipeline);
    let all = files.insert(pipeline.meta_path()).insert(pipeline.index_path()).insert(
        pipeline.data_path(),
    );
    assert(ready =~= all);
    if pipeline.duplicate {
        assert(all =~= files.insert(pipeline.meta_path()).insert(pipeline.index_path()));
    }
}

/// A store that fails leaves nothing of the upload behind. Whatever the
/// step that failed, once the files of the rollback are removed, neither the
/// metadata file nor the temporary data file is there, and every file that
/// was there before the upload began still is. In particular an upload that
/// is too large, which fails while it is streamed, leaves the directory as
/// it was.
pub proof fn lemma_failed_store_leaves_nothing(
    files: Set<Seq<char>>,
    stage: StoreStage,
    pipeline: StorePipelineView,
    index_after: Map<Seq<char>, Seq<u128>>,
)
    requires
        pipeline.stage == stage,
        awaits(stage, EventKind::Failed) || awaits(stage, EventKind::StreamFailed),
        !files.contains(pipeline.meta_path()),
        !files.contains(pipeline.temp_path()),
        pipeline.duplicate ==> files.contains(pipeline.data_path()),
    ensures
        ({
            let left = cleaned(
                files_at(files, stage, pipeline),
                files_to_remove(pipeline, index_after),
            );
            &&& !left.contains(pipeline.meta_path())
            &&& !left.contains(pipeline.temp_path())
            &&& forall|path: Seq<char>|
                files.contains(path) && path != pipeline.data_path() ==> left.contains(path)
            &&& pipeline.duplicate ==> left.contains(pipeline.data_path())
            &&& progress(stage) <= progress(StoreStage::PersistingIndex) ==> left == files
            &&& forall|path: Seq<char>|
                left.contains(path) ==> files.contains(path) || path == pipeline.index_path()
                    || path == pipeline.data_path()
        }),
{
    lemma_paths_differ(pipeline);
    let remove = files_to_remove(pipeline, index_after);
    let left = cleaned(files_at(files, stage, pipeline), remove);
    let meta = pipeline.meta_path();
    let temp = pipeline.temp_path();
    let data = pipeline.data_path();
    match stage {
        StoreStage::CreatingMeta => {
            assert(remove.to_set() =~= Set::<Seq<char>>::empty());
        },
        StoreStage::CreatingTemp => {
            assert(remove[0] == meta);
            assert(remove.to_set() =~= set![meta]);
        },
        StoreStage::WritingMetadata => {
            assert(remove[0] == meta);
            if !pipeline.duplicate && !index_after.contains_key(pipeline.hash) {
                assert(remove[1] == data);
                assert(remove.to_set() =~= set![meta, data]);
            } else {
                assert(remove.to_set() =~= set![meta]);
            }
        },
        _ => {
            assert(remove[0] == meta);
            assert(remove[1] == temp);
            assert(remove.to_set() =~= set![meta, temp]);
        },
    }
    if progress(stage) <= progress(StoreStage::PersistingIndex) {
        assert(left =~= files);
    }
}

/// A store in which every action goes well goes through: each event that
/// tells of success takes the pipeline exactly one stage on, never into
/// failure, and the action that is asked for is the one of the next stage. So
/// six such events take a pipeline that has begun to the stage `Ready`, where
/// it hands out the entry.
pub proof fn lemma_store_goes_through(stage: StoreStage, kind: EventKind, duplicate: bool)
    requires
        awaits(stage, kind),
        kind == EventKind::Done || kind == EventKind::Streamed,
    ensures
        step(stage, kind, duplicate).0 != StoreStage::Failed,
        progress(step(stage, kind, duplicate).0) == progress(stage) + 1,
        step(stage, kind, duplicate).1 == asked_at(step(stage, kind, duplicate).0, duplicate),
        progress(StoreStage::Ready) == progress(StoreStage::CreatingMeta) + 6,
{
}

} // verus!