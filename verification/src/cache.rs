//! A memoizing key/value store with get-or-populate semantics: the system of
//! record for hot identity data. Lookup is by exact key equality; there is no
//! TTL, eviction or capacity bound, and entries live until removed. Loader
//! failure never poisons a key: a failed population leaves the key absent.

use vstd::prelude::*;

use crate::bytes::bytes_eq;
use crate::error::ErrorModel;

verus! {

/// Abstract contents of an entry list, later entries shadowing earlier ones
/// (the well-formedness invariant rules shadowing out).
pub open spec fn entries_map<V>(s: Seq<(Vec<u8>, V)>) -> Map<Seq<u8>, V>
    decreases s.len(),
{
    if s.len() == 0 {
        Map::empty()
    } else {
        entries_map(s.drop_last()).insert(s.last().0@, s.last().1)
    }
}

/// A memoizing cache from byte-string keys to values.
pub struct MemoCache<V> {
    entries: Vec<(Vec<u8>, V)>,
}

impl<V> MemoCache<V> {
    /// The key/value map this cache holds.
    pub closed spec fn contents(self) -> Map<Seq<u8>, V> {
        entries_map(self.entries@)
    }

    /// Keys are pairwise distinct, so each key denotes one entry.
    pub closed spec fn wf(self) -> bool {
        forall|i: int, j: int|
            0 <= i < j < self.entries@.len() ==> self.entries@[i].0@ != self.entries@[j].0@
    }

    pub fn new() -> (r: Self)
        ensures
            r.wf(),
            r.contents() == Map::<Seq<u8>, V>::empty(),
    {
        MemoCache { entries: Vec::new() }
    }

    /// A present entry is returned as-is; an absent key yields `None`.
    pub fn get(&self, key: &[u8]) -> (r: Option<&V>)
        requires
            self.wf(),
        ensures
            match r {
                Some(v) => self.contents().contains_key(key@) && *v == self.contents()[key@],
                None => !self.contents().contains_key(key@),
            },
    {
        let n = self.entries.len();
        let mut i: usize = 0;
        while i < n
            invariant
                self.wf(),
                n == self.entries@.len(),
                0 <= i <= n,
                forall|j: int| 0 <= j < i ==> self.entries@[j].0@ != key@,
            decreases n - i,
        {
            if bytes_eq(self.entries[i].0.as_slice(), key) {
                proof {
                    lemma_entries_map_index(self.entries@, i as int);
                }
                return Some(&self.entries[i].1);
            }
            i = i + 1;
        }
        proof {
            lemma_entries_map_domain(self.entries@, key@);
        }
        None
    }

    /// Inserts a value under an absent key.
    pub fn insert(&mut self, key: Vec<u8>, value: V)
        requires
            old(self).wf(),
            !old(self).contents().contains_key(key@),
        ensures
            final(self).wf(),
            final(self).contents() == old(self).contents().insert(key@, value),
    {
        proof {
            assert forall|j: int| 0 <= j < self.entries@.len() implies self.entries@[j].0@
                != key@ by {
                if self.entries@[j].0@ == key@ {
                    lemma_entries_map_contains(self.entries@, j);
                }
            }
        }
        self.entries.push((key, value));
        proof {
            assert(self.entries@.drop_last() =~= old(self).entries@);
        }
    }

    /// Removes a key, handing back its value when it was present. Used by
    /// the stores to invalidate an entry before re-population, and by the
    /// challenge registry to consume a one-time challenge.
    pub fn remove(&mut self, key: &[u8]) -> (r: Option<V>)
        requires
            old(self).wf(),
        ensures
            final(self).wf(),
            final(self).contents() == old(self).contents().remove(key@),
            match r {
                Some(v) => old(self).contents().contains_key(key@) && v == old(
                    self,
                ).contents()[key@],
                None => !old(self).contents().contains_key(key@),
            },
    {
        let n = self.entries.len();
        let mut i: usize = 0;
        while i < n
            invariant
                self.wf(),
                self == old(self),
                n == self.entries@.len(),
                0 <= i <= n,
                forall|j: int| 0 <= j < i ==> self.entries@[j].0@ != key@,
            decreases n - i,
        {
            if bytes_eq(self.entries[i].0.as_slice(), key) {
                proof {
                    lemma_entries_map_index(self.entries@, i as int);
                }
                let e = self.entries.remove(i);
                proof {
                    lemma_entries_map_remove(old(self).entries@, i as int);
                }
                return Some(e.1);
            }
            i = i + 1;
        }
        proof {
            lemma_entries_map_domain(self.entries@, key@);
            assert(self.contents().remove(key@) =~= self.contents());
        }
        None
    }

    /// Get-or-populate. A present key is answered from the cache and the
    /// loader plays no part; an absent key invokes the loader once, stores a
    /// success, and leaves the key absent on failure, so a transient loader
    /// error never poisons later lookups.
    pub fn get_or_load<F: FnOnce() -> Result<V, ErrorModel>>(
        &mut self,
        key: &[u8],
        loader: F,
    ) -> (r: Result<&V, ErrorModel>)
        requires
            old(self).wf(),
            call_requires(loader, ()),
        ensures
            final(self).wf(),
            match r {
                Ok(v) => {
                    &&& final(self).contents().contains_key(key@)
                    &&& *v == final(self).contents()[key@]
                    &&& if old(self).contents().contains_key(key@) {
                        final(self).contents() == old(self).contents() && *v == old(
                            self,
                        ).contents()[key@]
                    } else {
                        final(self).contents() == old(self).contents().insert(key@, *v)
                            && call_ensures(loader, (), Ok(*v))
                    }
                },
                Err(e) => {
                    &&& !old(self).contents().contains_key(key@)
                    &&& final(self).contents() == old(self).contents()
                    &&& call_ensures(loader, (), Err(e))
                },
            },
    {
        if self.get(key).is_some() {
            return Ok(self.get(key).unwrap());
        }
        match loader() {
            Ok(v) => {
                self.insert(vstd::slice::slice_to_vec(key), v);
                Ok(self.get(key).unwrap())
            },
            Err(e) => Err(e),
        }
    }
}

proof fn lemma_entries_map_index<V>(s: Seq<(Vec<u8>, V)>, i: int)
    requires
        0 <= i < s.len(),
        forall|p: int, q: int| 0 <= p < q < s.len() ==> s[p].0@ != s[q].0@,
    ensures
        entries_map(s).contains_key(s[i].0@),
        entries_map(s)[s[i].0@] == s[i].1,
    decreases s.len(),
{
    if i < s.len() - 1 {
        lemma_entries_map_index(s.drop_last(), i);
    }
}

proof fn lemma_entries_map_contains<V>(s: Seq<(Vec<u8>, V)>, i: int)
    requires
        0 <= i < s.len(),
    ensures
        entries_map(s).contains_key(s[i].0@),
    decreases s.len(),
{
    if i < s.len() - 1 {
        lemma_entries_map_contains(s.drop_last(), i);
    }
}

proof fn lemma_entries_map_domain<V>(s: Seq<(Vec<u8>, V)>, k: Seq<u8>)
    requires
        forall|j: int| 0 <= j < s.len() ==> s[j].0@ != k,
    ensures
        !entries_map(s).contains_key(k),
    decreases s.len(),
{
    if s.len() != 0 {
        lemma_entries_map_domain(s.drop_last(), k);
    }
}

proof fn lemma_entries_map_remove<V>(s: Seq<(Vec<u8>, V)>, i: int)
    requires
        0 <= i < s.len(),
        forall|p: int, q: int| 0 <= p < q < s.len() ==> s[p].0@ != s[q].0@,
    ensures
        entries_map(s.remove(i)) =~= entries_map(s).remove(s[i].0@),
    decreases s.len(),
{
    if i == s.len() - 1 {
        assert(s.remove(i) =~= s.drop_last());
        lemma_entries_map_domain(s.drop_last(), s[i].0@);
    } else {
        lemma_entries_map_remove(s.drop_last(), i);
        assert(s.remove(i).drop_last() =~= s.drop_last().remove(i));
        assert(s.remove(i).last() == s.last());
    }
}

} // verus!
