//! The sharded concurrent table underneath the store, and what the library
//! assumes of the few operations it uses.
use dashmap::DashMap;
use vstd::prelude::*;

verus! {

#[verifier::external_type_specification]
#[verifier::external_body]
#[verifier::reject_recursive_types(K)]
#[verifier::reject_recursive_types(V)]
#[verifier::reject_recursive_types(S)]
pub struct ExDashMap<K, V, S>(DashMap<K, V, S>);

/// The entries that a table holds.
pub uninterp spec fn table_contents(t: DashMap<usize, usize>) -> Map<usize, usize>;

/// What a lookup in `m` yields: the stored value, or `None`.
pub open spec fn stored(m: Map<usize, usize>, k: usize) -> Option<usize> {
    if m.contains_key(k) {
        Some(m[k])
    } else {
        None
    }
}

/// Relies on `DashMap::new`: a fresh table holds no entry.
#[verifier::external_body]
pub(crate) fn table_new() -> (r: DashMap<usize, usize>)
    ensures
        table_contents(r).dom() == Set::<usize>::empty(),
{
    DashMap::new()
}

/// Relies on `DashMap::insert`: the entry for `k` becomes `v`, and the value
/// that it replaced, if any, is handed back.
#[verifier::external_body]
pub(crate) fn table_insert(t: &mut DashMap<usize, usize>, k: usize, v: usize) -> (r: Option<usize>)
    ensures
        table_contents(*final(t)) == table_contents(*old(t)).insert(k, v),
        r == stored(table_contents(*old(t)), k),
{
    t.insert(k, v)
}

/// Relies on `DashMap::get`: the value stored under `k`, if any.
#[verifier::external_body]
pub(crate) fn table_get(t: &DashMap<usize, usize>, k: usize) -> (r: Option<usize>)
    ensures
        r == stored(table_contents(*t), k),
{
    t.get(&k).map(|e| *e)
}

/// Relies on `DashMap::remove`: the entry for `k` leaves the table, and its
/// value, if there was one, is handed back.
#[verifier::external_body]
pub(crate) fn table_remove(t: &mut DashMap<usize, usize>, k: usize) -> (r: Option<usize>)
    ensures
        table_contents(*final(t)) == table_contents(*old(t)).remove(k),
        r == stored(table_contents(*old(t)), k),
{
    t.remove(&k).map(|(_, v)| v)
}

/// Relies on `DashMap::iter`: a walk over every shard yields each entry of
/// the table once, in an order that the table does not promise.
#[verifier::external_body]
pub(crate) fn table_entries(t: &DashMap<usize, usize>) -> (r: Vec<(usize, usize)>)
    ensures
        forall|i: int|
            0 <= i < r@.len() ==> #[trigger] table_contents(*t).contains_key(r@[i].0)
                && table_contents(*t)[r@[i].0] == r@[i].1,
        forall|k: usize|
            #[trigger] table_contents(*t).contains_key(k) ==> exists|i: int|
                0 <= i < r@.len() && r@[i].0 == k,
        forall|i: int, j: int|
            0 <= i < j < r@.len() ==> #[trigger] r@[i].0 != #[trigger] r@[j].0,
{
    t.iter().map(|e| (*e.key(), *e.value())).collect()
}

} // verus!
