//! The typed slot store: a heterogeneously keyed store of staging records
//! attached to the execution context.  Records are keyed by the task graph
//! they belong to together with the type-signature shape of the record, and
//! a newly stored record supersedes any earlier record under the exact same
//! key while records under every other key are untouched.

use vstd::prelude::*;

verus! {

/// Identifies one staging slot: the task graph the record belongs to and
/// the type-signature shape of the record stored there.
#[derive(Clone, Copy, Debug, PartialEq, Eq, Structural)]
pub struct SlotKey {
    /// The graph identity the record is attached to.
    pub graph: u64,
    /// The shape of the record: a label for its exact type signature.
    pub shape: u64,
}

/// What a log of keyed entries holds at key `k`: the latest entry wins.
pub open spec fn lookup<V>(s: Seq<(SlotKey, V)>, k: SlotKey) -> Option<V>
    decreases s.len(),
{
    if s.len() == 0 {
        None
    } else if s.last().0 == k {
        Some(s.last().1)
    } else {
        lookup(s.drop_last(), k)
    }
}

/// A slot store: a log of keyed records in which the most recent record for
/// a key supersedes every earlier one, so that through [`SlotStore::get`]
/// the store behaves as a map from key to current record.
pub struct SlotStore<V> {
    entries: Vec<(SlotKey, V)>,
}

impl<V: Copy> SlotStore<V> {
    /// The store viewed as a partial map: the current record at `k`.
    pub closed spec fn spec_get(self, k: SlotKey) -> Option<V> {
        lookup(self.entries@, k)
    }

    /// An empty store, holding no record under any key.
    pub fn new() -> (r: Self)
        ensures
            forall|k: SlotKey| r.spec_get(k) is None,
    {
        SlotStore { entries: Vec::new() }
    }

    /// Store `v` under `k`, superseding any record previously held there;
    /// records under every other key are untouched.
    pub fn insert(&mut self, k: SlotKey, v: V)
        ensures
            final(self).spec_get(k) == Some(v),
            forall|k2: SlotKey| k2 != k ==> final(self).spec_get(k2) == old(self).spec_get(k2),
    {
        self.entries.push((k, v));
        proof {
            let s0 = old(self).entries@;
            let s1 = self.entries@;
            assert(s1.drop_last() =~= s0);
            assert(s1.last() == (k, v));
        }
    }

    /// The current record under `k`, if one is present.
    pub fn get(&self, k: SlotKey) -> (r: Option<V>)
        ensures
            r == self.spec_get(k),
    {
        let n = self.entries.len();
        let mut i: usize = n;
        proof {
            assert(self.entries@.take(n as int) =~= self.entries@);
        }
        while i > 0
            invariant
                i <= n,
                n == self.entries.len(),
                lookup(self.entries@, k) == lookup(self.entries@.take(i as int), k),
            decreases i,
        {
            let pair = self.entries[i - 1];
            proof {
                let t = self.entries@.take(i as int);
                assert(t.last() == self.entries@[i - 1]);
                assert(t.drop_last() =~= self.entries@.take(i - 1));
            }
            if pair.0 == k {
                return Some(pair.1);
            }
            i = i - 1;
        }
        proof {
            assert(self.entries@.take(0) =~= Seq::<(SlotKey, V)>::empty());
        }
        None
    }

    /// Whether a record is currently held under `k`.
    pub fn contains_key(&self, k: SlotKey) -> (r: bool)
        ensures
            r == (self.spec_get(k) is Some),
    {
        self.get(k).is_some()
    }

    /// Store `v` under `k` only if no record is held there yet: an existing
    /// record is kept as-is, and every other key is untouched.
    pub fn ensure(&mut self, k: SlotKey, v: V)
        ensures
            final(self).spec_get(k) == (if old(self).spec_get(k) is Some {
                old(self).spec_get(k)
            } else {
                Some(v)
            }),
            forall|k2: SlotKey| k2 != k ==> final(self).spec_get(k2) == old(self).spec_get(k2),
    {
        if !self.contains_key(k) {
            self.insert(k, v);
        }
    }
}

} // verus!
