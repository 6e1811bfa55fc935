//! The store: a table from nonzero keys to nonzero values, where `0` stands
//! for "absent" and is never stored.
use crate::backing::{table_contents, table_get, table_insert, table_new, table_remove};
use dashmap::DashMap;
use vstd::prelude::*;

verus! {

/// A concurrent map from nonzero `usize` keys to nonzero `usize` values.
pub struct AlchemistMap {
    inner: DashMap<usize, usize>,
}

impl View for AlchemistMap {
    type V = Map<usize, usize>;

    closed spec fn view(&self) -> Map<usize, usize> {
        table_contents(self.inner)
    }
}

/// A store's contents are well formed when they are finite and neither a key
/// nor a value is the sentinel `0`.
pub open spec fn valid_store(m: Map<usize, usize>) -> bool {
    &&& m.dom().finite()
    &&& forall|k: usize| #[trigger] m.contains_key(k) ==> k != 0 && m[k] != 0
}

/// What a read of `k` gives: the stored value, or `0` where there is none.
pub open spec fn lookup(m: Map<usize, usize>, k: usize) -> usize {
    if m.contains_key(k) {
        m[k]
    } else {
        0
    }
}

/// The contents after a write of `v` under `k`: a write that names the
/// sentinel as key or value leaves them as they were.
pub open spec fn after_set(m: Map<usize, usize>, k: usize, v: usize) -> Map<usize, usize> {
    if k == 0 || v == 0 {
        m
    } else {
        m.insert(k, v)
    }
}

/// The contents after the first `n` writes of a batch, applied in index order.
pub open spec fn after_sets(m: Map<usize, usize>, ks: Seq<usize>, vs: Seq<usize>, n: nat) -> Map<
    usize,
    usize,
>
    decreases n,
{
    if n == 0 {
        m
    } else {
        after_set(after_sets(m, ks, vs, (n - 1) as nat), ks[n - 1], vs[n - 1])
    }
}

/// The contents after the first `n` removals of a batch, applied in index order.
pub open spec fn after_removes(m: Map<usize, usize>, ks: Seq<usize>, n: nat) -> Map<usize, usize>
    decreases n,
{
    if n == 0 {
        m
    } else {
        after_removes(m, ks, (n - 1) as nat).remove(ks[n - 1])
    }
}

impl AlchemistMap {
    /// The store holds finitely many entries, none of which names the sentinel.
    pub open spec fn wf(&self) -> bool {
        valid_store(self@)
    }

    /// The table that holds the entries.
    pub(crate) fn inner_table(&self) -> (r: &DashMap<usize, usize>)
        ensures
            table_contents(*r) == self@,
    {
        &self.inner
    }
}

/// Creates an empty store.
pub fn alchemist_map_new() -> (r: AlchemistMap)
    ensures
        r.wf(),
        r@ == Map::<usize, usize>::empty(),
{
    let r = AlchemistMap { inner: table_new() };
    assert(r@ =~= Map::<usize, usize>::empty());
    r
}

/// Releases a store and every entry in it.
pub fn alchemist_map_destroy(obj: AlchemistMap) {
    let AlchemistMap { inner: _ } = obj;
}

/// Stores `val` under `key`, replacing what was there; a sentinel key or value
/// is ignored.
pub fn alchemist_map_set(obj: &mut AlchemistMap, key: usize, val: usize)
    requires
        old(obj).wf(),
    ensures
        final(obj).wf(),
        final(obj)@ == after_set(old(obj)@, key, val),
{
    if key == 0 || val == 0 {
        return ;
    }
    table_insert(&mut obj.inner, key, val);
}

/// The value stored under `key`, or `0` where there is none.
pub fn alchemist_map_get(obj: &AlchemistMap, key: usize) -> (r: usize)
    requires
        obj.wf(),
    ensures
        r == lookup(obj@, key),
{
    if key == 0 {
        return 0;
    }
    match table_get(&obj.inner, key) {
        Some(v) => v,
        None => 0,
    }
}

/// Removes the entry for `key` and returns its value, or `0` where there was
/// none.
pub fn alchemist_map_remove(obj: &mut AlchemistMap, key: usize) -> (r: usize)
    requires
        old(obj).wf(),
    ensures
        final(obj).wf(),
        final(obj)@ == old(obj)@.remove(key),
        r == lookup(old(obj)@, key),
{
    if key == 0 {
        assert(obj@ =~= obj@.remove(key));
        return 0;
    }
    match table_remove(&mut obj.inner, key) {
        Some(v) => v,
        None => 0,
    }
}

/// Applies `alchemist_map_set` to each pair `(keys[i], vals[i])`, in index
/// order; pairs that name the sentinel are skipped.
pub fn alchemist_map_batch_set(obj: &mut AlchemistMap, keys: &[usize], vals: &[usize])
    requires
        old(obj).wf(),
        keys@.len() == vals@.len(),
    ensures
        final(obj).wf(),
        final(obj)@ == after_sets(old(obj)@, keys@, vals@, keys@.len()),
{
    let n = keys.len();
    let mut i: usize = 0;
    while i < n
        invariant
            n == keys@.len(),
            n == vals@.len(),
            i <= n,
            obj.wf(),
            obj@ == after_sets(old(obj)@, keys@, vals@, i as nat),
        decreases n - i,
    {
        alchemist_map_set(obj, keys[i], vals[i]);
        i = i + 1;
    }
}

/// Reads each key of `keys`; the result is aligned with `keys` by index.
pub fn alchemist_map_batch_get(obj: &AlchemistMap, keys: &[usize]) -> (r: Vec<usize>)
    requires
        obj.wf(),
    ensures
        r@.len() == keys@.len(),
        forall|i: int| 0 <= i < keys@.len() ==> r@[i] == lookup(obj@, #[trigger] keys@[i]),
{
    let n = keys.len();
    let mut r: Vec<usize> = Vec::with_capacity(n);
    let mut i: usize = 0;
    while i < n
        invariant
            n == keys@.len(),
            i <= n,
            r@.len() == i,
            obj.wf(),
            forall|j: int| 0 <= j < i ==> r@[j] == lookup(obj@, #[trigger] keys@[j]),
        decreases n - i,
    {
        r.push(alchemist_map_get(obj, keys[i]));
        i = i + 1;
    }
    r
}

/// Removes each key of `keys` in index order; the result holds, aligned with
/// `keys`, what each removal returned.
pub fn alchemist_map_batch_remove(obj: &mut AlchemistMap, keys: &[usize]) -> (r: Vec<usize>)
    requires
        old(obj).wf(),
    ensures
        final(obj).wf(),
        final(obj)@ == after_removes(old(obj)@, keys@, keys@.len()),
        r@.len() == keys@.len(),
        forall|i: int|
            0 <= i < keys@.len() ==> r@[i] == lookup(
                after_removes(old(obj)@, keys@, i as nat),
                #[trigger] keys@[i],
            ),
{
    let n = keys.len();
    let mut r: Vec<usize> = Vec::with_capacity(n);
    let mut i: usize = 0;
    while i < n
        invariant
            n == keys@.len(),
            i <= n,
            r@.len() == i,
            obj.wf(),
            obj@ == after_removes(old(obj)@, keys@, i as nat),
            forall|j: int|
                0 <= j < i ==> r@[j] == lookup(
                    after_removes(old(obj)@, keys@, j as nat),
                    #[trigger] keys@[j],
                ),
        decreases n - i,
    {
        let v = alchemist_map_remove(obj, keys[i]);
        r.push(v);
        i = i + 1;
    }
    r
}

} // verus!
