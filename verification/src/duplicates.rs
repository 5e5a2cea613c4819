//! The duplicate index: which uploads share which content.
//!
//! The index maps the hash of a stored content to the identifiers of the
//! uploads that hold it. A data file may go when the last of them goes.

use crate::error::CacheError;
use crate::id::EntryId;
use vstd::prelude::*;

verus! {

/// `ids` without every occurrence of `id`, the rest in their order.
pub open spec fn without(ids: Seq<u128>, id: u128) -> Seq<u128>
    decreases ids.len(),
{
    if ids.len() == 0 {
        ids
    } else if ids.last() == id {
        without(ids.drop_last(), id)
    } else {
        without(ids.drop_last(), id).push(ids.last())
    }
}

/// `without` keeps exactly the other identifiers, and changes a sequence
/// only where it holds the one that goes.
pub proof fn lemma_without(ids: Seq<u128>, id: u128)
    ensures
        !without(ids, id).contains(id),
        forall|other: u128|
            other != id ==> (#[trigger] without(ids, id).contains(other) <==> ids.contains(other)),
        without(ids, id).len() <= ids.len(),
        ids.contains(id) <==> without(ids, id) != ids,
        ids.contains(id) <==> without(ids, id).len() < ids.len(),
    decreases ids.len(),
{
    if ids.len() > 0 {
        let front = ids.drop_last();
        let last = ids.last();
        lemma_without(front, id);
        assert(ids == front.push(last));
        assert forall|other: u128| #[trigger] ids.contains(other) <==> (front.contains(other)
            || other == last) by {
            if ids.contains(other) {
                let i = choose|i: int| 0 <= i < ids.len() && ids[i] == other;
                if i < front.len() {
                    assert(front[i] == other);
                }
            }
            if front.contains(other) {
                let i = choose|i: int| 0 <= i < front.len() && front[i] == other;
                assert(ids[i] == other);
            }
            if other == last {
                assert(ids[ids.len() - 1] == other);
            }
        }
        if last == id {
            assert(without(ids, id).len() < ids.len());
        } else {
            let kept = without(front, id);
            assert(without(ids, id) == kept.push(last));
            assert forall|other: u128| #[trigger] kept.push(last).contains(other) <==> (
            kept.contains(other) || other == last) by {
                if kept.push(last).contains(other) {
                    let i = choose|i: int|
                        0 <= i < kept.push(last).len() && kept.push(last)[i] == other;
                    if i < kept.len() {
                        assert(kept[i] == other);
                    }
                }
                if kept.contains(other) {
                    let i = choose|i: int| 0 <= i < kept.len() && kept[i] == other;
                    assert(kept.push(last)[i] == other);
                }
                if other == last {
                    assert(kept.push(last)[kept.len() as int] == other);
                }
            }
            if kept == front {
                assert(kept.push(last) == ids);
            } else {
                assert(kept.len() < front.len());
            }
        }
    } else {
        assert(!ids.contains(id));
    }
}

/// Whether no hash stands in the index without an identifier. This holds of
/// every `DuplicateMap`.
pub open spec fn is_pruned(index: Map<Seq<char>, Seq<u128>>) -> bool {
    forall|hash: Seq<char>| #[trigger] index.contains_key(hash) ==> index[hash].len() > 0
}

/// Whether `id` is listed nowhere in the index.
pub open spec fn is_unlisted(index: Map<Seq<char>, Seq<u128>>, id: u128) -> bool {
    forall|hash: Seq<char>| !#[trigger] is_listed_under(index, id, hash)
}

/// The index after `id` has been listed under `hash`, behind the identifiers
/// that stood there.
pub open spec fn index_with(
    index: Map<Seq<char>, Seq<u128>>,
    hash: Seq<char>,
    id: u128,
) -> Map<Seq<char>, Seq<u128>> {
    index.insert(
        hash,
        (if index.contains_key(hash) {
            index[hash]
        } else {
            Seq::empty()
        }).push(id),
    )
}

/// Whether the index lists `id` under `hash`.
pub open spec fn is_listed_under(index: Map<Seq<char>, Seq<u128>>, id: u128, hash: Seq<char>) -> bool {
    index.contains_key(hash) && index[hash].contains(id)
}

/// Whether content with this hash is held by an upload other than `id`.
pub open spec fn is_held_by_other(
    index: Map<Seq<char>, Seq<u128>>,
    hash: Seq<char>,
    id: u128,
) -> bool {
    index.contains_key(hash) && without(index[hash], id).len() > 0
}

/// The index after `id` has left it: every list loses the identifier, and a
/// hash whose list is then empty leaves the index.
pub open spec fn index_without(
    index: Map<Seq<char>, Seq<u128>>,
    id: u128,
) -> Map<Seq<char>, Seq<u128>> {
    Map::new(
        |hash: Seq<char>| index.contains_key(hash) && without(index[hash], id).len() > 0,
        |hash: Seq<char>| without(index[hash], id),
    )
}

/// The index that lists the identifiers `ids`, one after the other, under
/// `hash`, on top of what `index` holds.
pub open spec fn index_with_all(
    index: Map<Seq<char>, Seq<u128>>,
    hash: Seq<char>,
    ids: Seq<u128>,
) -> Map<Seq<char>, Seq<u128>>
    decreases ids.len(),
{
    if ids.len() == 0 {
        index
    } else {
        index_with(index_with_all(index, hash, ids.drop_last()), hash, ids.last())
    }
}

/// The index that holds what the pairs list, taken in their order.
pub open spec fn index_of_pairs(pairs: Seq<(Seq<char>, Seq<u128>)>) -> Map<Seq<char>, Seq<u128>>
    decreases pairs.len(),
{
    if pairs.len() == 0 {
        Map::empty()
    } else {
        index_with_all(index_of_pairs(pairs.drop_last()), pairs.last().0, pairs.last().1)
    }
}

/// The hashes and identifiers of a sequence of pairs, as plain values.
pub open spec fn plain_pairs(pairs: Seq<(String, Vec<u128>)>) -> Seq<(Seq<char>, Seq<u128>)> {
    Seq::new(pairs.len(), |i: int| (pairs[i].0@, pairs[i].1@))
}

/// The texts of a sequence of strings.
pub open spec fn texts(strings: Seq<String>) -> Seq<Seq<char>> {
    Seq::new(strings.len(), |i: int| strings[i]@)
}

/// The text that `serde_json::to_string` writes for an index: a JSON object
/// with one member for each hash, in the order of the hashes, whose value is
/// the array of the identifiers in hyphenated form.
pub uninterp spec fn index_json(index: Map<Seq<char>, Seq<u128>>) -> Seq<char>;

/// What `serde_json::from_str` reads from a text as a map from hash to
/// identifiers: the members in the order of their hashes, or nothing where
/// the text is not such a JSON object.
pub uninterp spec fn parsed_index(text: Seq<char>) -> Option<Seq<(Seq<char>, Seq<u128>)>>;

/// The uploads that hold one content.
#[derive(Debug)]
struct HashGroup {
    hash: String,
    ids: Vec<u128>,
}

/// The duplicate index.
///
/// No hash stands in it twice, and none stands in it without an identifier:
/// a hash that loses its last identifier leaves the index.
#[derive(Debug)]
pub struct DuplicateMap {
    groups: Vec<HashGroup>,
}

spec fn has_hash(groups: Seq<HashGroup>, hash: Seq<char>) -> bool {
    exists|i: int| 0 <= i < groups.len() && #[trigger] groups[i].hash@ == hash
}

spec fn position_of(groups: Seq<HashGroup>, hash: Seq<char>) -> int {
    choose|i: int| 0 <= i < groups.len() && #[trigger] groups[i].hash@ == hash
}

spec fn groups_wf(groups: Seq<HashGroup>) -> bool {
    &&& forall|i: int, j: int|
        0 <= i < groups.len() && 0 <= j < groups.len() && i != j ==> #[trigger] groups[i].hash@
            != #[trigger] groups[j].hash@
    &&& forall|i: int| 0 <= i < groups.len() ==> (#[trigger] groups[i]).ids@.len() > 0
}

spec fn groups_map(groups: Seq<HashGroup>) -> Map<Seq<char>, Seq<u128>> {
    Map::new(
        |hash: Seq<char>|
            has_hash(groups, hash) && groups[position_of(groups, hash)].ids@.len() > 0,
        |hash: Seq<char>| groups[position_of(groups, hash)].ids@,
    )
}

proof fn lemma_group_at(groups: Seq<HashGroup>, i: int)
    requires
        groups_wf(groups),
        0 <= i < groups.len(),
    ensures
        has_hash(groups, groups[i].hash@),
        position_of(groups, groups[i].hash@) == i,
        groups_map(groups).contains_key(groups[i].hash@),
        groups_map(groups)[groups[i].hash@] == groups[i].ids@,
{
    assert(groups[i].hash@ == groups[i].hash@);
}

fn find(groups: &Vec<HashGroup>, hash: &String) -> (found: Option<usize>)
    ensures
        found is None <==> !has_hash(groups@, hash@),
        found matches Some(i) ==> i < groups@.len() && groups@[i as int].hash@ == hash@,
{
    let mut i: usize = 0;
    while i < groups.len()
        invariant
            i <= groups@.len(),
            forall|j: int| 0 <= j < i ==> (#[trigger] groups@[j]).hash@ != hash@,
        decreases groups@.len() - i,
    {
        if groups[i].hash == *hash {
            return Some(i);
        }
        i += 1;
    }
    None
}

/// What becomes of the index when the groups change in one place: a group
/// takes one more identifier, or a group with a new hash and one identifier
/// comes behind the others.
proof fn lemma_listed(before: Seq<HashGroup>, after: Seq<HashGroup>, i: int, id: u128)
    requires
        groups_wf(before),
        0 <= i < after.len(),
        before.len() <= after.len() <= before.len() + 1,
        forall|j: int| 0 <= j < before.len() && j != i ==> after[j] == #[trigger] before[j],
        i < before.len() ==> after.len() == before.len() && after[i].hash@ == before[i].hash@
            && after[i].ids@ == before[i].ids@.push(id),
        i == before.len() ==> after.len() == before.len() + 1 && !has_hash(before, after[i].hash@)
            && after[i].ids@ == seq![id],
    ensures
        groups_wf(after),
        groups_map(after) == index_with(groups_map(before), after[i].hash@, id),
{
    let hash = after[i].hash@;
    let goal = index_with(groups_map(before), hash, id);
    assert forall|a: int, b: int|
        0 <= a < after.len() && 0 <= b < after.len() && a != b implies #[trigger] after[a].hash@
        != #[trigger] after[b].hash@ by {
        if a < before.len() {
            assert(after[a].hash@ == before[a].hash@);
        }
        if b < before.len() {
            assert(after[b].hash@ == before[b].hash@);
        }
    }
    assert forall|a: int| 0 <= a < after.len() implies (#[trigger] after[a]).ids@.len() > 0 by {
        if a != i {
            assert(after[a] == before[a]);
        }
    }
    lemma_group_at(after, i);
    if i < before.len() {
        lemma_group_at(before, i);
    }
    assert forall|h: Seq<char>| groups_map(after).contains_key(h) <==> goal.contains_key(h) by {
        if has_hash(after, h) {
            let p = position_of(after, h);
            if p != i {
                assert(after[p] == before[p]);
                lemma_group_at(before, p);
            }
        }
        if has_hash(before, h) {
            let p = position_of(before, h);
            lemma_group_at(before, p);
            lemma_group_at(after, p);
        }
    }
    assert forall|h: Seq<char>| groups_map(after).contains_key(h) implies groups_map(after)[h]
        == goal[h] by {
        let p = position_of(after, h);
        lemma_group_at(after, p);
        if p != i {
            assert(after[p] == before[p]);
            lemma_group_at(before, p);
        }
    }
    assert(groups_map(after) =~= goal);
}

/// Lists `id` under `hash` in a well-formed vector of groups.
fn insert_into(groups: &mut Vec<HashGroup>, hash: String, id: u128)
    requires
        groups_wf(old(groups)@),
    ensures
        groups_wf(final(groups)@),
        groups_map(final(groups)@) == index_with(groups_map(old(groups)@), hash@, id),
{
    let ghost before = groups@;
    match find(groups, &hash) {
        Some(i) => {
            groups[i].ids.push(id);
            proof {
                lemma_listed(before, groups@, i as int, id);
            }
        },
        None => {
            let mut ids: Vec<u128> = Vec::new();
            ids.push(id);
            groups.push(HashGroup { hash, ids });
            proof {
                lemma_listed(before, groups@, before.len() as int, id);
            }
        },
    }
}

fn ids_without(ids: &Vec<u128>, id: u128) -> (kept: Vec<u128>)
    ensures
        kept@ == without(ids@, id),
{
    let mut kept: Vec<u128> = Vec::new();
    let mut i: usize = 0;
    while i < ids.len()
        invariant
            i <= ids@.len(),
            kept@ == without(ids@.subrange(0, i as int), id),
        decreases ids@.len() - i,
    {
        let ghost next = ids@.subrange(0, i as int + 1);
        assert(next.drop_last() == ids@.subrange(0, i as int));
        assert(next.last() == ids@[i as int]);
        if ids[i] != id {
            kept.push(ids[i]);
        }
        i += 1;
    }
    assert(ids@.subrange(0, i as int) == ids@);
    kept
}

/// Takes `id` out of every group, and drops the groups that it empties.
/// Returns the groups that are left and the hashes of those that held it.
fn remove_from(groups: &Vec<HashGroup>, id: u128) -> (result: (Vec<HashGroup>, Vec<String>))
    requires
        groups_wf(groups@),
    ensures
        groups_wf(result.0@),
        groups_map(result.0@) == index_without(groups_map(groups@), id),
        texts(result.1@).no_duplicates(),
        forall|hash: Seq<char>|
            texts(result.1@).contains(hash) <==> (groups_map(groups@).contains_key(hash)
                && groups_map(groups@)[hash].contains(id)),
{
    let mut left: Vec<HashGroup> = Vec::new();
    let mut held: Vec<String> = Vec::new();
    let ghost mut left_from: Seq<int> = Seq::empty();
    let ghost mut held_from: Seq<int> = Seq::empty();
    let mut i: usize = 0;
    while i < groups.len()
        invariant
            i <= groups@.len(),
            groups_wf(groups@),
            left_from.len() == left@.len(),
            held_from.len() == held@.len(),
            forall|k: int|
                0 <= k < left@.len() ==> 0 <= #[trigger] left_from[k] < i && left@[k].hash@
                    == groups@[left_from[k]].hash@ && left@[k].ids@ == without(
                    groups@[left_from[k]].ids@,
                    id,
                ) && left@[k].ids@.len() > 0,
            forall|k: int, l: int|
                0 <= k < l < left@.len() ==> #[trigger] left_from[k] < #[trigger] left_from[l],
            forall|j: int|
                0 <= j < i && without((#[trigger] groups@[j]).ids@, id).len() > 0
                    ==> exists|k: int| 0 <= k < left@.len() && left_from[k] == j,
            forall|k: int|
                0 <= k < held@.len() ==> 0 <= #[trigger] held_from[k] < i && held@[k]@
                    == groups@[held_from[k]].hash@ && groups@[held_from[k]].ids@.contains(id),
            forall|k: int, l: int|
                0 <= k < l < held@.len() ==> #[trigger] held_from[k] < #[trigger] held_from[l],
            forall|j: int|
                0 <= j < i && (#[trigger] groups@[j]).ids@.contains(id) ==> exists|k: int|
                    0 <= k < held@.len() && held_from[k] == j,
        decreases groups@.len() - i,
    {
        let group = &groups[i];
        let kept = ids_without(&group.ids, id);
        proof {
            lemma_without(group.ids@, id);
        }
        let had_id = kept.len() != group.ids.len();
        if had_id {
            held.push(group.hash.clone());
            proof {
                let old_from = held_from;
                held_from = held_from.push(i as int);
                assert forall|j: int|
                    0 <= j < i + 1 && (#[trigger] groups@[j]).ids@.contains(id) implies exists|
                    k: int,
                | 0 <= k < held@.len() && held_from[k] == j by {
                    if j < i {
                        let k = choose|k: int| 0 <= k < old_from.len() && old_from[k] == j;
                        assert(held_from[k] == j);
                    } else {
                        assert(held_from[held@.len() - 1] == j);
                    }
                }
            }
        }
        if kept.len() > 0 {
            left.push(HashGroup { hash: group.hash.clone(), ids: kept });
            proof {
                let old_from = left_from;
                left_from = left_from.push(i as int);
                assert forall|k: int| 0 <= k < left@.len() implies 0 <= #[trigger] left_from[k] < i
                    + 1 && left@[k].hash@ == groups@[left_from[k]].hash@ && left@[k].ids@
                    == without(groups@[left_from[k]].ids@, id) && left@[k].ids@.len() > 0 by {
                    if k < old_from.len() {
                        assert(left_from[k] == old_from[k]);
                    }
                }
                assert forall|j: int|
                    0 <= j < i + 1 && without((#[trigger] groups@[j]).ids@, id).len()
                        > 0 implies exists|k: int| 0 <= k < left@.len() && left_from[k] == j by {
                    if j < i {
                        let k = choose|k: int| 0 <= k < old_from.len() && old_from[k] == j;
                        assert(left_from[k] == j);
                    } else {
                        assert(left_from[left@.len() - 1] == j);
                    }
                }
            }
        }
        i += 1;
    }
    proof {
        let before = groups@;
        let after = left@;
        let goal = index_without(groups_map(before), id);
        assert(groups_wf(after)) by {
            assert forall|a: int, b: int|
                0 <= a < after.len() && 0 <= b < after.len() && a != b implies #[trigger] after[a].hash@
                != #[trigger] after[b].hash@ by {
                if a < b {
                    assert(left_from[a] < left_from[b]);
                } else {
                    assert(left_from[b] < left_from[a]);
                }
            }
            assert forall|a: int| 0 <= a < after.len() implies (#[trigger] after[a]).ids@.len()
                > 0 by {
                assert(0 <= left_from[a]);
            }
        }
        assert forall|h: Seq<char>| groups_map(after).contains_key(h) <==> goal.contains_key(
            h,
        ) by {
            if has_hash(after, h) {
                let k = position_of(after, h);
                lemma_group_at(after, k);
                lemma_group_at(before, left_from[k]);
            }
            if goal.contains_key(h) {
                let j = position_of(before, h);
                lemma_group_at(before, j);
                let k = choose|k: int| 0 <= k < after.len() && left_from[k] == j;
                lemma_group_at(after, k);
            }
        }
        assert forall|h: Seq<char>| groups_map(after).contains_key(h) implies groups_map(
            after,
        )[h] == goal[h] by {
            let k = position_of(after, h);
            lemma_group_at(after, k);
            lemma_group_at(before, left_from[k]);
        }
        assert(groups_map(after) =~= goal);
        let names = texts(held@);
        assert forall|a: int, b: int|
            0 <= a < names.len() && 0 <= b < names.len() && a != b implies names[a]
            != names[b] by {
            if a < b {
                assert(held_from[a] < held_from[b]);
            } else {
                assert(held_from[b] < held_from[a]);
            }
        }
        assert forall|h: Seq<char>|
            names.contains(h) <==> (groups_map(before).contains_key(h) && groups_map(
                before,
            )[h].contains(id)) by {
            if names.contains(h) {
                let k = choose|k: int| 0 <= k < names.len() && names[k] == h;
                lemma_group_at(before, held_from[k]);
            }
            if groups_map(before).contains_key(h) && groups_map(before)[h].contains(id) {
                let j = position_of(before, h);
                lemma_group_at(before, j);
                let k = choose|k: int| 0 <= k < held@.len() && held_from[k] == j;
                assert(names[k] == h);
            }
        }
    }
    (left, held)
}

/// Calls `serde_json::to_string` on the groups, gathered into a map that is
/// ordered by hash, each identifier as a `uuid::Uuid`. The text depends on
/// what the index holds and on nothing else. The call succeeds: it fails
/// only where a value refuses to be written or a key is no text, and here
/// the keys are texts and the values are lists of identifiers, which are
/// written as texts.
#[verifier::external_body]
fn json_encode(groups: &Vec<HashGroup>) -> (json: Result<String, String>)
    requires
        groups_wf(groups@),
    ensures
        json is Ok,
        json matches Ok(text) ==> text@ == index_json(groups_map(groups@)),
{
    let map: std::collections::BTreeMap<&str, Vec<uuid::Uuid>> = groups.iter().map(
        |group| (group.hash.as_str(), group.ids.iter().map(|id| uuid::Uuid::from_u128(*id)).collect()),
    ).collect();
    match serde_json::to_string(&map) {
        Ok(text) => Ok(text),
        Err(error) => Err(error.to_string()),
    }
}

/// Calls `serde_json::from_str` for a map that is ordered by hash, and hands
/// out its members in that order, each identifier as its 128-bit value. The
/// call fails where the text is no such JSON object.
#[verifier::external_body]
fn json_decode(text: &str) -> (pairs: Result<Vec<(String, Vec<u128>)>, String>)
    ensures
        pairs is Ok <==> parsed_index(text@) is Some,
        pairs matches Ok(found) ==> parsed_index(text@) == Some(plain_pairs(found@)),
{
    match serde_json::from_str::<std::collections::BTreeMap<String, Vec<uuid::Uuid>>>(text) {
        Ok(map) => Ok(
            map.into_iter().map(
                |(hash, ids)| (hash, ids.into_iter().map(|id| id.as_u128()).collect()),
            ).collect(),
        ),
        Err(error) => Err(error.to_string()),
    }
}

impl View for DuplicateMap {
    type V = Map<Seq<char>, Seq<u128>>;

    closed spec fn view(&self) -> Map<Seq<char>, Seq<u128>> {
        groups_map(self.groups@)
    }
}

impl DuplicateMap {
    #[verifier::type_invariant]
    spec fn well_formed(&self) -> bool {
        groups_wf(self.groups@)
    }

    /// No hash stands in the index without an identifier.
    pub proof fn lemma_no_empty_group(&self)
        ensures
            is_pruned(self@),
    {
    }

    /// An index that holds nothing.
    pub fn new() -> (index: Self)
        ensures
            index@ == Map::<Seq<char>, Seq<u128>>::empty(),
    {
        let index = Self { groups: Vec::new() };
        assert(index@ =~= Map::<Seq<char>, Seq<u128>>::empty());
        index
    }

    /// The identifiers listed under `hash`, where the index holds it.
    pub fn get(&self, hash: &str) -> (ids: Option<&Vec<u128>>)
        ensures
            ids is Some <==> self@.contains_key(hash@),
            ids matches Some(found) ==> found@ == self@[hash@] && found@.len() > 0,
    {
        proof {
            use_type_invariant(self);
        }
        let owned = hash.to_owned();
        match find(&self.groups, &owned) {
            Some(i) => {
                proof {
                    lemma_group_at(self.groups@, i as int);
                }
                Some(&self.groups[i].ids)
            },
            None => None,
        }
    }

    /// Lists `id` under `hash`, after the identifiers that stand there.
    pub fn add(&mut self, hash: String, id: EntryId)
        ensures
            final(self)@ == index_with(old(self)@, hash@, id@),
    {
        proof {
            use_type_invariant(&*self);
        }
        let mut groups: Vec<HashGroup> = Vec::new();
        std::mem::swap(&mut groups, &mut self.groups);
        insert_into(&mut groups, hash, id.as_u128());
        self.groups = groups;
    }
    /// Takes `id` out of the index, wherever it is listed, and returns the
    /// hashes under which it stood, each once. A hash that loses its last
    /// identifier leaves the index.
    pub fn remove(&mut self, id: &EntryId) -> (hashes: Vec<String>)
        ensures
            final(self)@ == index_without(old(self)@, id@),
            texts(hashes@).no_duplicates(),
            forall|hash: Seq<char>|
                texts(hashes@).contains(hash) <==> is_listed_under(old(self)@, id@, hash),
    {
        proof {
            use_type_invariant(&*self);
        }
        let (left, held) = remove_from(&self.groups, id.as_u128());
        self.groups = left;
        held
    }
    /// Writes the index down as JSON text: what the index file is to hold.
    /// Every index can be written down.
    pub fn write_to_file(&self) -> (json: Result<String, CacheError>)
        ensures
            json matches Ok(text) && text@ == index_json(self@),
    {
        proof {
            use_type_invariant(self);
        }
        Self::json_result(json_encode(&self.groups))
    }

    /// Turns the encoder's word into the result of `write_to_file`.
    pub fn json_result(encoded: Result<String, String>) -> (json: Result<String, CacheError>)
        ensures
            encoded matches Ok(text) ==> json == Ok::<String, CacheError>(text),
            encoded matches Err(why) ==> json matches Err(
                CacheError::Serialization { context, why: cause },
            ) && context@ == "serializing duplicate map"@ && cause == why,
    {
        match encoded {
            Ok(text) => Ok(text),
            Err(why) => Err(
                CacheError::Serialization {
                    context: "serializing duplicate map".to_owned(),
                    why,
                },
            ),
        }
    }

    /// The index that lists what the pairs hold, taken in their order. A hash
    /// without identifiers leaves no trace, and a hash that comes twice has
    /// its identifiers gathered in one list.
    pub fn from_pairs(pairs: &Vec<(String, Vec<u128>)>) -> (index: Self)
        ensures
            index@ == index_of_pairs(plain_pairs(pairs@)),
    {
        let mut index = Self::new();
        let mut i: usize = 0;
        while i < pairs.len()
            invariant
                i <= pairs@.len(),
                index@ == index_of_pairs(plain_pairs(pairs@).subrange(0, i as int)),
            decreases pairs@.len() - i,
        {
            let ghost done = plain_pairs(pairs@).subrange(0, i as int + 1);
            assert(done.drop_last() == plain_pairs(pairs@).subrange(0, i as int));
            assert(done.last() == (pairs@[i as int].0@, pairs@[i as int].1@));
            let ghost base = index@;
            let ids = &pairs[i].1;
            let mut j: usize = 0;
            while j < ids.len()
                invariant
                    j <= ids@.len(),
                    index@ == index_with_all(base, pairs@[i as int].0@, ids@.subrange(0, j as int)),
                    i < pairs@.len(),
                decreases ids@.len() - j,
            {
                let ghost next = ids@.subrange(0, j as int + 1);
                assert(next.drop_last() == ids@.subrange(0, j as int));
                assert(next.last() == ids@[j as int]);
                index.add(pairs[i].0.clone(), EntryId::from_u128(ids[j]));
                j += 1;
            }
            assert(ids@.subrange(0, j as int) == ids@);
            i += 1;
        }
        assert(plain_pairs(pairs@).subrange(0, i as int) == plain_pairs(pairs@));
        index
    }

    /// The index that the index file holds, given the file's text, or
    /// nothing where the file could not be read. Without a file, and with a
    /// text that is no index, the index starts empty.
    pub fn init_from_cache_dir(content: Option<&str>) -> (index: Self)
        ensures
            index@ == match content {
                Some(text) => match parsed_index(text@) {
                    Some(pairs) => index_of_pairs(pairs),
                    None => Map::empty(),
                },
                None => Map::empty(),
            },
    {
        match content {
            Some(text) => Self::from_decoded(json_decode(text)),
            None => Self::new(),
        }
    }

    /// The index that a decoded index file gives: empty where decoding
    /// failed.
    pub fn from_decoded(decoded: Result<Vec<(String, Vec<u128>)>, String>) -> (index: Self)
        ensures
            index@ == match decoded {
                Ok(pairs) => index_of_pairs(plain_pairs(pairs@)),
                Err(_) => Map::empty(),
            },
    {
        match decoded {
            Ok(pairs) => Self::from_pairs(&pairs),
            Err(_) => Self::new(),
        }
    }
}

/// Lists an upload under the hash of its content and tells whether the
/// content is a duplicate: whether an upload other than this one held it
/// before. The compressed file of a duplicate is dropped; any other becomes
/// the data file of its hash.
///
/// After the call the index holds the hash, whatever it held before.
pub fn handle_duplicates(index: &mut DuplicateMap, hash: String, id: EntryId) -> (duplicate: bool)
    ensures
        final(index)@ == index_with(old(index)@, hash@, id@),
        duplicate == is_held_by_other(old(index)@, hash@, id@),
        final(index)@.contains_key(hash@),
{
    let duplicate = match index.get(hash.as_str()) {
        Some(ids) => ids_without(ids, id.as_u128()).len() > 0,
        None => false,
    };
    index.add(hash, id);
    duplicate
}

} // verus!