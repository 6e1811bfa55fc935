//! Properties that relate the store's operations to one another.
use crate::map::{after_set, after_sets, lookup, valid_store};
use crate::snapshot::{batch_len, AlchemistMapIterator};
use vstd::prelude::*;

verus! {

/// A write of a nonzero value under a nonzero key is what a read of that key
/// then gives.
pub proof fn lemma_set_then_get(m: Map<usize, usize>, k: usize, v: usize)
    requires
        k != 0,
        v != 0,
    ensures
        lookup(after_set(m, k, v), k) == v,
{
}

/// A write whose key or value is the sentinel leaves the contents unchanged.
pub proof fn lemma_sentinel_set_is_ignored(m: Map<usize, usize>, k: usize, v: usize)
    ensures
        after_set(m, k, 0) == m,
        after_set(m, 0, v) == m,
{
}

/// A key that was absent and that no write of a batch names still reads as
/// `0` afterwards; in particular on a fresh store.
pub proof fn lemma_never_inserted_reads_zero(
    m: Map<usize, usize>,
    ks: Seq<usize>,
    vs: Seq<usize>,
    n: nat,
    k: usize,
)
    requires
        !m.contains_key(k),
        n <= ks.len(),
        n <= vs.len(),
        forall|i: int| 0 <= i < n ==> ks[i] != k,
    ensures
        lookup(after_sets(m, ks, vs, n), k) == 0,
        !after_sets(m, ks, vs, n).contains_key(k),
    decreases n,
{
    if n > 0 {
        lemma_never_inserted_reads_zero(m, ks, vs, (n - 1) as nat, k);
    }
}

/// After a removal the key reads as `0`; what the removal returned was the
/// value stored before, or `0` where there was none.
pub proof fn lemma_remove_then_get(m: Map<usize, usize>, k: usize)
    requires
        valid_store(m),
    ensures
        lookup(m.remove(k), k) == 0,
        m.contains_key(k) ==> lookup(m, k) == m[k] && lookup(m, k) != 0,
        !m.contains_key(k) ==> lookup(m, k) == 0,
{
}

/// A batch write of distinct nonzero keys with nonzero values is read back,
/// index by index, by a batch read of the same keys.
pub proof fn lemma_batch_set_then_get(m: Map<usize, usize>, ks: Seq<usize>, vs: Seq<usize>)
    requires
        ks.len() == vs.len(),
        ks.no_duplicates(),
        forall|i: int| 0 <= i < ks.len() ==> ks[i] != 0 && vs[i] != 0,
    ensures
        forall|i: int|
            0 <= i < ks.len() ==> lookup(after_sets(m, ks, vs, ks.len()), #[trigger] ks[i]) == vs[i],
{
    lemma_batch_prefix(m, ks, vs, ks.len());
}

proof fn lemma_batch_prefix(m: Map<usize, usize>, ks: Seq<usize>, vs: Seq<usize>, n: nat)
    requires
        n <= ks.len() == vs.len(),
        ks.no_duplicates(),
        forall|i: int| 0 <= i < ks.len() ==> ks[i] != 0 && vs[i] != 0,
    ensures
        forall|i: int| 0 <= i < n ==> lookup(after_sets(m, ks, vs, n), #[trigger] ks[i]) == vs[i],
    decreases n,
{
    if n > 0 {
        lemma_batch_prefix(m, ks, vs, (n - 1) as nat);
        assert forall|i: int| 0 <= i < n implies lookup(
            after_sets(m, ks, vs, n),
            #[trigger] ks[i],
        ) == vs[i] by {
            if i < n - 1 {
                assert(ks[i] != ks[n - 1]);
            }
        }
    }
}

/// A batch read whose bound covers what remains hands out all of it and
/// leaves the snapshot exhausted; on an exhausted snapshot a batch read
/// hands out nothing.
pub proof fn lemma_next_batch_drains(it: AlchemistMapIterator, max_n: nat)
    requires
        it.wf(),
    ensures
        it.remaining().len() <= max_n ==> {
            let n = batch_len(it.remaining().len(), max_n);
            &&& n == it.remaining().len()
            &&& it.remaining().take(n as int) == it.remaining()
            &&& it.cursor() + n == it.entries().len()
        },
        it.is_exhausted() ==> batch_len(it.remaining().len(), max_n) == 0,
{
    assert(it.remaining().take(it.remaining().len() as int) =~= it.remaining());
}

} // verus!
