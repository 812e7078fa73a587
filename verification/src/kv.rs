//! The mathematical model of an in-memory backend: a sequence of
//! (key, payload) entries, read as a map in which the newest entry for a key
//! wins. Saving appends an entry, so the map gains or replaces exactly that
//! key; loading scans from the newest entry backwards.

use vstd::prelude::*;

verus! {

/// The map described by a sequence of entries, later entries overriding
/// earlier ones.
pub open spec fn kv_map(entries: Seq<(String, Vec<u8>)>) -> Map<Seq<char>, Seq<u8>>
    decreases entries.len(),
{
    if entries.len() == 0 {
        Map::empty()
    } else {
        kv_map(entries.drop_last()).insert(entries.last().0@, entries.last().1@)
    }
}

/// Appending an entry inserts exactly its key into the map.
pub proof fn lemma_kv_map_push(entries: Seq<(String, Vec<u8>)>, entry: (String, Vec<u8>))
    ensures
        kv_map(entries.push(entry)) == kv_map(entries).insert(entry.0@, entry.1@),
{
    assert(entries.push(entry).drop_last() =~= entries);
}

/// Unfolds the map of a prefix by one entry.
pub proof fn lemma_kv_map_take_step(entries: Seq<(String, Vec<u8>)>, i: int)
    requires
        0 < i <= entries.len(),
    ensures
        kv_map(entries.take(i)) == kv_map(entries.take(i - 1)).insert(
            entries[i - 1].0@,
            entries[i - 1].1@,
        ),
{
    assert(entries.take(i).drop_last() =~= entries.take(i - 1));
    assert(entries.take(i).last() == entries[i - 1]);
}

/// The whole sequence is its own prefix.
pub proof fn lemma_kv_map_take_all(entries: Seq<(String, Vec<u8>)>)
    ensures
        kv_map(entries.take(entries.len() as int)) == kv_map(entries),
{
    assert(entries.take(entries.len() as int) =~= entries);
}

} // verus!
