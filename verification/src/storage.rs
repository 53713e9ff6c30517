use vstd::prelude::*;

verus! {

/// The external storage collaborator's interface, modelled directly: a map
/// from an account identity to a stored 32-bit value, created or overwritten
/// on write and never implicitly deleted.
///
/// The representation is an association vector with pairwise distinct keys;
/// contracts speak only of the mathematical map [`StorageMap::as_map`].
pub struct StorageMap {
    entries: Vec<(u32, u32)>,
}

/// The map an association vector denotes, later entries taking precedence.
spec fn seq_to_map(s: Seq<(u32, u32)>) -> Map<u32, u32>
    decreases s.len(),
{
    if s.len() == 0 {
        Map::empty()
    } else {
        seq_to_map(s.drop_last()).insert(s.last().0, s.last().1)
    }
}

/// Overwriting an entry whose key occurs nowhere later in the vector
/// denotes the same map as inserting that key into the denoted map.
proof fn lemma_seq_to_map_update(s: Seq<(u32, u32)>, i: int, key: u32, value: u32)
    requires
        0 <= i < s.len(),
        s[i].0 == key,
        forall|j: int| i < j < s.len() ==> s[j].0 != key,
    ensures
        seq_to_map(s.update(i, (key, value))) == seq_to_map(s).insert(key, value),
    decreases s.len(),
{
    let t = s.update(i, (key, value));
    if i == s.len() - 1 {
        assert(t.drop_last() =~= s.drop_last());
        assert(t.last() == (key, value));
        assert(seq_to_map(s.drop_last()).insert(key, value) =~= seq_to_map(s.drop_last()).insert(
            s[i].0,
            s[i].1,
        ).insert(key, value));
    } else {
        assert(t.drop_last() =~= s.drop_last().update(i, (key, value)));
        assert(t.last() == s.last());
        lemma_seq_to_map_update(s.drop_last(), i, key, value);
        assert(s.last().0 != key);
        assert(seq_to_map(s.drop_last()).insert(key, value).insert(s.last().0, s.last().1)
            =~= seq_to_map(s.drop_last()).insert(s.last().0, s.last().1).insert(key, value));
    }
}

impl StorageMap {
    /// The mathematical map this storage holds.
    pub closed spec fn as_map(self) -> Map<u32, u32> {
        seq_to_map(self.entries@)
    }

    /// The representation invariant: keys are pairwise distinct, so an
    /// overwrite touches exactly one entry.
    pub closed spec fn wf(self) -> bool {
        forall|i: int, j: int|
            0 <= i < j < self.entries@.len() ==> self.entries@[i].0 != self.entries@[j].0
    }

    /// Make an empty storage.
    pub fn new() -> (r: StorageMap)
        ensures
            r.wf(),
            r.as_map() == Map::<u32, u32>::empty(),
    {
        StorageMap { entries: Vec::new() }
    }

    /// Write `value` under `key`: create the entry or overwrite the one that
    /// is there.  Exactly the collaborator's `insert(key, value)`.
    pub fn insert(&mut self, key: u32, value: u32)
        requires
            old(self).wf(),
        ensures
            final(self).wf(),
            final(self).as_map() == old(self).as_map().insert(key, value),
    {
        let n = self.entries.len();
        let mut i: usize = 0;
        while i < n
            invariant
                n == self.entries@.len(),
                0 <= i <= n,
                *self == *old(self),
                old(self).wf(),
                forall|j: int| 0 <= j < i ==> self.entries@[j].0 != key,
            decreases n - i,
        {
            if self.entries[i].0 == key {
                self.entries[i] = (key, value);
                proof {
                    lemma_seq_to_map_update(old(self).entries@, i as int, key, value);
                }
                return ;
            }
            i += 1;
        }
        self.entries.push((key, value));
        proof {
            assert(self.entries@.drop_last() =~= old(self).entries@);
            assert(self.entries@.last() == (key, value));
        }
    }

    /// Look the entry for `key` up: the stored value, or `None` where
    /// nothing was ever written.
    pub fn get(&self, key: u32) -> (r: Option<u32>)
        ensures
            self.as_map().dom().contains(key) ==> r == Some(self.as_map()[key]),
            !self.as_map().dom().contains(key) ==> r is None,
    {
        let ghost full = self.entries@;
        let mut i: usize = self.entries.len();
        proof {
            assert(full.take(i as int) =~= full);
        }
        while i > 0
            invariant
                0 <= i <= self.entries@.len(),
                full == self.entries@,
                seq_to_map(full).dom().contains(key) == seq_to_map(full.take(i as int)).dom()
                    .contains(key),
                seq_to_map(full).dom().contains(key) ==> seq_to_map(full)[key] == seq_to_map(
                    full.take(i as int),
                )[key],
            decreases i,
        {
            i -= 1;
            proof {
                assert(full.take(i + 1).drop_last() =~= full.take(i as int));
                assert(full.take(i + 1).last() == full[i as int]);
            }
            if self.entries[i].0 == key {
                return Some(self.entries[i].1);
            }
        }
        proof {
            assert(full.take(0) =~= Seq::<(u32, u32)>::empty());
        }
        None
    }
}

} // verus!
