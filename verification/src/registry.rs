//! The entries that the engine knows, by identifier.

use crate::entry::{CacheEntry, CacheEntryView};
use crate::error::CacheError;
use crate::id::EntryId;
use vstd::prelude::*;

verus! {

/// The entries that the engine knows. No identifier stands in it twice.
#[derive(Debug)]
pub struct Registry {
    entries: Vec<CacheEntry>,
}

spec fn has_id(entries: Seq<CacheEntry>, id: u128) -> bool {
    exists|i: int| 0 <= i < entries.len() && #[trigger] entries[i]@.id == id
}

spec fn place_of(entries: Seq<CacheEntry>, id: u128) -> int {
    choose|i: int| 0 <= i < entries.len() && #[trigger] entries[i]@.id == id
}

spec fn entries_wf(entries: Seq<CacheEntry>) -> bool {
    forall|i: int, j: int|
        0 <= i < entries.len() && 0 <= j < entries.len() && i != j ==> #[trigger] entries[i]@.id
            != #[trigger] entries[j]@.id
}

spec fn entries_map(entries: Seq<CacheEntry>) -> Map<u128, CacheEntryView> {
    Map::new(|id: u128| has_id(entries, id), |id: u128| entries[place_of(entries, id)]@)
}

proof fn lemma_entry_at(entries: Seq<CacheEntry>, i: int)
    requires
        entries_wf(entries),
        0 <= i < entries.len(),
    ensures
        has_id(entries, entries[i]@.id),
        place_of(entries, entries[i]@.id) == i,
        entries_map(entries).contains_key(entries[i]@.id),
        entries_map(entries)[entries[i]@.id] == entries[i]@,
{
    assert(entries[i]@.id == entries[i]@.id);
}

fn find(entries: &Vec<CacheEntry>, id: EntryId) -> (found: Option<usize>)
    ensures
        found is None <==> !has_id(entries@, id@),
        found matches Some(i) ==> i < entries@.len() && entries@[i as int]@.id == id@,
{
    let mut i: usize = 0;
    while i < entries.len()
        invariant
            i <= entries@.len(),
            forall|j: int| 0 <= j < i ==> (#[trigger] entries@[j])@.id != id@,
        decreases entries@.len() - i,
    {
        if entries[i].uuid().as_u128() == id.as_u128() {
            return Some(i);
        }
        i += 1;
    }
    None
}

/// Takes the entry with this identifier out of a vector of entries with
/// distinct identifiers.
fn take_out(entries: &mut Vec<CacheEntry>, id: EntryId) -> (taken: Option<CacheEntry>)
    requires
        entries_wf(old(entries)@),
    ensures
        entries_wf(final(entries)@),
        entries_map(final(entries)@) == entries_map(old(entries)@).remove(id@),
        taken is Some <==> entries_map(old(entries)@).contains_key(id@),
        taken matches Some(entry) ==> entry@ == entries_map(old(entries)@)[id@],
{
    let ghost before = entries@;
    match find(entries, id) {
        None => {
            assert(entries_map(before).remove(id@) =~= entries_map(before));
            None
        },
        Some(i) => {
            proof {
                lemma_entry_at(before, i as int);
            }
            let taken = entries.remove(i);
            proof {
                let after = entries@;
                assert forall|j: int| 0 <= j < after.len() implies #[trigger] after[j] == before[if j
                    < i {
                    j
                } else {
                    j + 1
                }] by {}
                assert(entries_wf(after)) by {
                    assert forall|a: int, b: int|
                        0 <= a < after.len() && 0 <= b < after.len() && a != b implies #[trigger] after[a]@.id
                        != #[trigger] after[b]@.id by {
                        let first = if a < i { a } else { a + 1 };
                        let second = if b < i { b } else { b + 1 };
                        assert(after[a] == before[first]);
                        assert(after[b] == before[second]);
                    }
                }
                let goal = entries_map(before).remove(id@);
                assert forall|key: u128| entries_map(after).contains_key(key)
                    <==> goal.contains_key(key) by {
                    if has_id(after, key) {
                        let p = place_of(after, key);
                        let origin = if p < i { p } else { p + 1 };
                        assert(after[p] == before[origin]);
                        lemma_entry_at(before, origin);
                    }
                    if has_id(before, key) && key != id@ {
                        let origin = place_of(before, key);
                        lemma_entry_at(before, origin);
                        let p = if origin < i { origin } else { origin - 1 };
                        assert(after[p] == before[origin]);
                        lemma_entry_at(after, p);
                    }
                }
                assert forall|key: u128| entries_map(after).contains_key(key) implies entries_map(
                    after,
                )[key] == goal[key] by {
                    let p = place_of(after, key);
                    lemma_entry_at(after, p);
                    let origin = if p < i { p } else { p + 1 };
                    assert(after[p] == before[origin]);
                    lemma_entry_at(before, origin);
                }
                assert(entries_map(after) =~= goal);
            }
            Some(taken)
        },
    }
}

impl View for Registry {
    type V = Map<u128, CacheEntryView>;

    closed spec fn view(&self) -> Map<u128, CacheEntryView> {
        entries_map(self.entries@)
    }
}

impl Registry {
    #[verifier::type_invariant]
    spec fn well_formed(&self) -> bool {
        entries_wf(self.entries@)
    }

    /// A registry without entries.
    pub fn new() -> (registry: Self)
        ensures
            registry@ == Map::<u128, CacheEntryView>::empty(),
    {
        let registry = Self { entries: Vec::new() };
        assert(registry@ =~= Map::<u128, CacheEntryView>::empty());
        registry
    }

    /// Whether the registry holds an entry with this identifier.
    pub fn contains(&self, id: EntryId) -> (held: bool)
        ensures
            held == self@.contains_key(id@),
    {
        find(&self.entries, id).is_some()
    }

    /// The entry with this identifier, where the registry holds one.
    pub fn get(&self, id: EntryId) -> (entry: Option<&CacheEntry>)
        ensures
            entry is Some <==> self@.contains_key(id@),
            entry matches Some(found) ==> found@ == self@[id@],
    {
        proof {
            use_type_invariant(self);
        }
        match find(&self.entries, id) {
            Some(i) => {
                proof {
                    lemma_entry_at(self.entries@, i as int);
                }
                Some(&self.entries[i])
            },
            None => None,
        }
    }

    /// The entry with this identifier, or the failure that says that there
    /// is none.
    pub fn lookup(&self, id: EntryId) -> (entry: Result<&CacheEntry, CacheError>)
        ensures
            entry is Ok <==> self@.contains_key(id@),
            entry matches Ok(found) ==> found@ == self@[id@],
            entry matches Err(error) ==> error matches CacheError::NotFound { id: missing }
                && missing == id,
    {
        match self.get(id) {
            Some(entry) => Ok(entry),
            None => Err(CacheError::NotFound { id }),
        }
    }

    /// Puts an entry into the registry, in the place of the one that had its
    /// identifier, which is returned.
    pub fn insert(&mut self, entry: CacheEntry) -> (replaced: Option<CacheEntry>)
        ensures
            final(self)@ == old(self)@.insert(entry@.id, entry@),
            replaced is Some <==> old(self)@.contains_key(entry@.id),
            replaced matches Some(former) ==> former@ == old(self)@[entry@.id],
    {
        proof {
            use_type_invariant(&*self);
        }
        let mut entries: Vec<CacheEntry> = Vec::new();
        std::mem::swap(&mut entries, &mut self.entries);
        let replaced = take_out(&mut entries, entry.uuid());
        let ghost rest = entries@;
        entries.push(entry);
        proof {
            let after = entries@;
            let last = after.len() - 1;
            assert forall|j: int| 0 <= j < rest.len() implies #[trigger] rest[j]@.id
                != entry@.id by {
                lemma_entry_at(rest, j);
            }
            assert(entries_wf(after)) by {
                assert forall|a: int, b: int|
                    0 <= a < after.len() && 0 <= b < after.len() && a != b implies #[trigger] after[a]@.id
                    != #[trigger] after[b]@.id by {
                    if a < last {
                        assert(after[a] == rest[a]);
                    }
                    if b < last {
                        assert(after[b] == rest[b]);
                    }
                }
            }
            lemma_entry_at(after, last);
            let goal = old(self)@.insert(entry@.id, entry@);
            assert(entries_map(rest) == old(self)@.remove(entry@.id));
            assert forall|key: u128| entries_map(after).contains_key(key) <==> goal.contains_key(
                key,
            ) by {
                if has_id(after, key) {
                    let p = place_of(after, key);
                    if p < last {
                        assert(after[p] == rest[p]);
                        lemma_entry_at(rest, p);
                        assert(entries_map(rest).contains_key(key));
                    } else {
                        assert(key == entry@.id);
                    }
                    assert(goal.contains_key(key));
                }
                if goal.contains_key(key) {
                    if key == entry@.id {
                        assert(has_id(after, key));
                    } else {
                        assert(entries_map(rest).contains_key(key));
                        let p = place_of(rest, key);
                        assert(after[p] == rest[p]);
                        lemma_entry_at(after, p);
                    }
                }
            }
            assert forall|key: u128| entries_map(after).contains_key(key) implies entries_map(
                after,
            )[key] == goal[key] by {
                let p = place_of(after, key);
                lemma_entry_at(after, p);
                if p < last {
                    assert(after[p] == rest[p]);
                    lemma_entry_at(rest, p);
                }
            }
            assert(entries_map(after) =~= goal);
        }
        self.entries = entries;
        replaced
    }

    /// Takes the entry with this identifier out of the registry.
    pub fn remove(&mut self, id: EntryId) -> (removed: Option<CacheEntry>)
        ensures
            final(self)@ == old(self)@.remove(id@),
            removed is Some <==> old(self)@.contains_key(id@),
            removed matches Some(entry) ==> entry@ == old(self)@[id@],
    {
        proof {
            use_type_invariant(&*self);
        }
        let mut entries: Vec<CacheEntry> = Vec::new();
        std::mem::swap(&mut entries, &mut self.entries);
        let removed = take_out(&mut entries, id);
        self.entries = entries;
        removed
    }

    /// How many entries the registry holds.
    pub fn len(&self) -> (count: usize)
        ensures
            self@.dom().finite(),
            count == self@.len(),
    {
        proof {
            use_type_invariant(self);
            lemma_count(self.entries@);
        }
        self.entries.len()
    }
}

/// Entries with distinct identifiers make a map with as many keys.
proof fn lemma_count(entries: Seq<CacheEntry>)
    requires
        entries_wf(entries),
    ensures
        entries_map(entries).dom().finite(),
        entries_map(entries).dom().len() == entries.len(),
    decreases entries.len(),
{
    let keys = entries_map(entries).dom();
    if entries.len() == 0 {
        assert(keys =~= Set::<u128>::empty());
    } else {
        let front = entries.drop_last();
        let last = entries.last()@.id;
        assert forall|i: int| 0 <= i < front.len() implies front[i] == entries[i] by {}
        assert(entries_wf(front)) by {
            assert forall|i: int, j: int|
                0 <= i < front.len() && 0 <= j < front.len() && i != j implies #[trigger] front[i]@.id
                != #[trigger] front[j]@.id by {
                assert(front[i] == entries[i]);
                assert(front[j] == entries[j]);
            }
        }
        lemma_count(front);
        let fewer = entries_map(front).dom();
        assert(!fewer.contains(last)) by {
            if has_id(front, last) {
                let i = place_of(front, last);
                assert(front[i] == entries[i]);
                assert(entries[i]@.id != entries[entries.len() - 1]@.id);
            }
        }
        assert(keys =~= fewer.insert(last)) by {
            assert forall|id: u128| keys.contains(id) <==> fewer.insert(last).contains(id) by {
                if has_id(entries, id) {
                    let i = place_of(entries, id);
                    if i < front.len() {
                        assert(front[i]@.id == id);
                    }
                }
                if has_id(front, id) {
                    let i = place_of(front, id);
                    assert(entries[i]@.id == id);
                }
                if id == last {
                    assert(entries[entries.len() - 1]@.id == id);
                }
            }
        }
    }
}

} // verus!
