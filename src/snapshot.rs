//! A detached copy of a store's entries, read through a cursor.
use crate::backing::table_entries;
use crate::map::AlchemistMap;
use vstd::prelude::*;

verus! {

/// `s` lists the entries of `m`, each exactly once, in some order.
pub open spec fn is_snapshot(s: Seq<(usize, usize)>, m: Map<usize, usize>) -> bool {
    &&& forall|i: int| 0 <= i < s.len() ==> #[trigger] m.contains_key(s[i].0) && m[s[i].0] == s[i].1
    &&& forall|k: usize| #[trigger] m.contains_key(k) ==> exists|i: int| 0 <= i < s.len() && s[i].0 == k
    &&& forall|i: int, j: int| 0 <= i < j < s.len() ==> #[trigger] s[i].0 != #[trigger] s[j].0
}

/// How many entries a batch read of at most `max_n` takes when `left`
/// entries remain.
pub open spec fn batch_len(left: nat, max_n: nat) -> nat {
    if left < max_n {
        left
    } else {
        max_n
    }
}

/// A snapshot of a store taken at one moment, with a cursor into it. It owns
/// its copy and does not depend on the store afterwards.
pub struct AlchemistMapIterator {
    items: Vec<(usize, usize)>,
    pos: usize,
}

impl AlchemistMapIterator {
    /// The copied entries, in the order in which they are handed out.
    pub closed spec fn entries(&self) -> Seq<(usize, usize)> {
        self.items@
    }

    /// How many entries have been handed out so far.
    pub closed spec fn cursor(&self) -> nat {
        self.pos as nat
    }

    /// The cursor never passes the end of the copy.
    pub open spec fn wf(&self) -> bool {
        self.cursor() <= self.entries().len()
    }

    /// The entries that are still to come.
    pub open spec fn remaining(&self) -> Seq<(usize, usize)> {
        self.entries().subrange(self.cursor() as int, self.entries().len() as int)
    }

    /// Every entry has been handed out.
    pub open spec fn is_exhausted(&self) -> bool {
        self.cursor() == self.entries().len()
    }
}

/// A list of distinct keys that covers the domain of `m` is as long as `m`.
proof fn lemma_snapshot_len(s: Seq<(usize, usize)>, m: Map<usize, usize>)
    requires
        m.dom().finite(),
        is_snapshot(s, m),
    ensures
        s.len() == m.len(),
{
    let keys = s.map_values(|p: (usize, usize)| p.0);
    assert(keys.no_duplicates()) by {
        assert forall|i: int, j: int| 0 <= i < keys.len() && 0 <= j < keys.len() && i != j implies keys[i]
            != keys[j] by {
            if i < j {
                assert(s[i].0 != s[j].0);
            } else {
                assert(s[j].0 != s[i].0);
            }
        }
    }
    keys.unique_seq_to_set();
    assert forall|k: usize| keys.to_set().contains(k) <==> m.dom().contains(k) by {
        if keys.to_set().contains(k) {
            let i = choose|i: int| 0 <= i < keys.len() && keys[i] == k;
            assert(m.contains_key(s[i].0));
        }
        if m.dom().contains(k) {
            assert(m.contains_key(k));
            let i = choose|i: int| 0 <= i < s.len() && s[i].0 == k;
            assert(keys[i] == k);
        }
    }
    assert(keys.to_set() =~= m.dom());
}

/// Copies the entries of `obj` into a new snapshot, with its cursor at the
/// start.
pub fn alchemist_map_iterator_new(obj: &AlchemistMap) -> (r: AlchemistMapIterator)
    requires
        obj.wf(),
    ensures
        r.wf(),
        r.cursor() == 0,
        is_snapshot(r.entries(), obj@),
        r.entries().len() == obj@.len(),
{
    let items = table_entries(obj.inner_table());
    proof {
        lemma_snapshot_len(items@, obj@);
    }
    AlchemistMapIterator { items, pos: 0 }
}

/// Hands out the entry at the cursor and moves past it, or `None` once every
/// entry has been handed out.
pub fn alchemist_map_iterator_next(obj: &mut AlchemistMapIterator) -> (r: Option<(usize, usize)>)
    requires
        old(obj).wf(),
    ensures
        final(obj).wf(),
        final(obj).entries() == old(obj).entries(),
        old(obj).cursor() < old(obj).entries().len() ==> r == Some(
            old(obj).entries()[old(obj).cursor() as int],
        ) && final(obj).cursor() == old(obj).cursor() + 1,
        old(obj).is_exhausted() ==> r is None && final(obj).cursor() == old(obj).cursor(),
{
    if obj.pos >= obj.items.len() {
        return None;
    }
    let e = obj.items[obj.pos];
    obj.pos = obj.pos + 1;
    Some(e)
}

/// Hands out the next entries, at most `max_n` of them, and moves the cursor
/// past them.
pub fn alchemist_map_iterator_next_batch(obj: &mut AlchemistMapIterator, max_n: usize) -> (r: Vec<
    (usize, usize),
>)
    requires
        old(obj).wf(),
    ensures
        final(obj).wf(),
        final(obj).entries() == old(obj).entries(),
        r@.len() == batch_len(old(obj).remaining().len(), max_n as nat),
        final(obj).cursor() == old(obj).cursor() + r@.len(),
        r@ == old(obj).remaining().take(r@.len() as int),
{
    let left = obj.items.len() - obj.pos;
    let n = if left < max_n {
        left
    } else {
        max_n
    };
    let mut r: Vec<(usize, usize)> = Vec::with_capacity(n);
    let mut i: usize = 0;
    while i < n
        invariant
            obj.wf(),
            obj.entries() == old(obj).entries(),
            obj.cursor() == old(obj).cursor(),
            n == batch_len(old(obj).remaining().len(), max_n as nat),
            obj.pos + n <= obj.items@.len() <= usize::MAX,
            i <= n,
            r@ == old(obj).remaining().take(i as int),
        decreases n - i,
    {
        r.push(obj.items[obj.pos + i]);
        i = i + 1;
        assert(r@ =~= old(obj).remaining().take(i as int));
    }
    obj.pos = obj.pos + n;
    r
}

/// Releases a snapshot and its copied entries.
pub fn alchemist_map_iterator_destroy(obj: AlchemistMapIterator) {
    let AlchemistMapIterator { items: _, pos: _ } = obj;
}

} // verus!
