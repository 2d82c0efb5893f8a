//! The insertion-ordered map of the `indexmap` crate, as the library relies on it.

use vstd::prelude::*;
use indexmap::IndexMap;
use crate::message::Entry;

verus! {

#[verifier::external_type_specification]
#[verifier::external_body]
#[verifier::reject_recursive_types(K)]
#[verifier::reject_recursive_types(V)]
#[verifier::reject_recursive_types(S)]
pub struct ExIndexMap<K, V, S>(IndexMap<K, V, S>);

/// The key-entry pairs of a message map, in the map's order.
pub uninterp spec fn message_entries(m: IndexMap<u32, Entry>) -> Seq<(u32, Entry)>;

/// Position of the last pair with key `k`, or -1 when there is none.
pub open spec fn key_index(s: Seq<(u32, Entry)>, k: u32) -> int
    decreases s.len(),
{
    if s.len() == 0 {
        -1
    } else if s.last().0 == k {
        s.len() - 1
    } else {
        key_index(s.drop_last(), k)
    }
}

/// The entry of key `k`, if the pairs hold it.
pub open spec fn lookup(s: Seq<(u32, Entry)>, k: u32) -> Option<Entry> {
    if key_index(s, k) >= 0 {
        Some(s[key_index(s, k)].1)
    } else {
        None
    }
}

/// Insertion into an ordered map: a present key keeps its place and takes the new entry;
/// a new key goes last.
pub open spec fn insert_entry(s: Seq<(u32, Entry)>, k: u32, e: Entry) -> Seq<(u32, Entry)> {
    let i = key_index(s, k);
    if i >= 0 {
        s.update(i, (k, e))
    } else {
        s.push((k, e))
    }
}

/// Relies on `IndexMap::new`: the new map is empty.
#[verifier::external_body]
pub(crate) fn entry_map_new() -> (m: IndexMap<u32, Entry>)
    ensures
        message_entries(m) == Seq::<(u32, Entry)>::empty(),
{
    IndexMap::new()
}

/// Relies on `IndexMap::len`: the number of pairs.
#[verifier::external_body]
pub(crate) fn entry_map_len(m: &IndexMap<u32, Entry>) -> (r: usize)
    ensures
        r == message_entries(*m).len(),
{
    m.len()
}

/// Relies on `IndexMap::get_index`: the pair at a position, `None` past the end.
#[verifier::external_body]
pub(crate) fn entry_map_get_index(m: &IndexMap<u32, Entry>, i: usize) -> (r: Option<(&u32, &Entry)>)
    ensures
        i < message_entries(*m).len() ==> r is Some && *r.unwrap().0 == message_entries(*m)[i as int].0
            && *r.unwrap().1 == message_entries(*m)[i as int].1,
        i >= message_entries(*m).len() ==> r is None,
{
    m.get_index(i)
}

/// Relies on `IndexMap::insert`: a present key keeps its place and its old entry is returned;
/// a new key is appended and `None` is returned.
#[verifier::external_body]
pub(crate) fn entry_map_insert(m: &mut IndexMap<u32, Entry>, k: u32, e: Entry) -> (r: Option<Entry>)
    ensures
        message_entries(*final(m)) == insert_entry(message_entries(*old(m)), k, e),
        key_index(message_entries(*old(m)), k) >= 0 ==> r == Some(
            message_entries(*old(m))[key_index(message_entries(*old(m)), k)].1,
        ),
        key_index(message_entries(*old(m)), k) < 0 ==> r is None,
{
    m.insert(k, e)
}

} // verus!
