//! Ordered string-to-string maps, held in `indexmap::IndexMap`.
use vstd::prelude::*;

use indexmap::IndexMap;

verus! {

#[verifier::external_type_specification]
#[verifier::external_body]
#[verifier::reject_recursive_types(K)]
#[verifier::reject_recursive_types(V)]
#[verifier::reject_recursive_types(S)]
pub struct ExIndexMap<K, V, S>(IndexMap<K, V, S>);

/// The entries of a map, in their order.
pub uninterp spec fn entries_of(m: IndexMap<String, String>) -> Seq<(Seq<char>, Seq<char>)>;

/// The position of the first entry with key `k`.
pub open spec fn key_index(es: Seq<(Seq<char>, Seq<char>)>, k: Seq<char>) -> Option<int>
    decreases es.len(),
{
    if es.len() == 0 {
        None
    } else if es.last().0 == k && key_index(es.drop_last(), k) is None {
        Some(es.len() - 1)
    } else {
        key_index(es.drop_last(), k)
    }
}

/// The entries after `k` is set to `v`: an existing entry keeps its place
/// and takes the new value; a new key goes last.
pub open spec fn entries_insert(es: Seq<(Seq<char>, Seq<char>)>, k: Seq<char>, v: Seq<char>) -> Seq<
    (Seq<char>, Seq<char>),
> {
    match key_index(es, k) {
        Some(i) => es.update(i, (k, v)),
        None => es.push((k, v)),
    }
}

/// Whether no two entries share a key.
pub open spec fn keys_distinct(es: Seq<(Seq<char>, Seq<char>)>) -> bool {
    forall|i: int, j: int| 0 <= i < j < es.len() ==> es[i].0 != es[j].0
}

/// Relies on `IndexMap::new`: a map with no entries.
#[verifier::external_body]
pub(crate) fn map_new() -> (r: IndexMap<String, String>)
    ensures
        entries_of(r) == Seq::<(Seq<char>, Seq<char>)>::empty(),
{
    IndexMap::new()
}

/// Relies on `IndexMap::insert`: an existing key keeps its place and takes
/// the new value; a new key goes last.
#[verifier::external_body]
pub(crate) fn map_insert(m: &mut IndexMap<String, String>, k: String, v: String)
    ensures
        entries_of(*final(m)) == entries_insert(entries_of(*old(m)), k@, v@),
{
    m.insert(k, v);
}

/// Relies on `IndexMap::len`: the number of entries.
#[verifier::external_body]
pub(crate) fn map_len(m: &IndexMap<String, String>) -> (r: usize)
    ensures
        r == entries_of(*m).len(),
{
    m.len()
}

/// Relies on `IndexMap::get_index`: the entry at a position below the length.
#[verifier::external_body]
pub(crate) fn map_entry(m: &IndexMap<String, String>, i: usize) -> (r: (String, String))
    requires
        i < entries_of(*m).len(),
    ensures
        (r.0@, r.1@) == entries_of(*m)[i as int],
{
    let (k, v) = m.get_index(i).unwrap();
    (k.clone(), v.clone())
}

} // verus!
