//! A bounded least-recently-used cache: the storage backend the engine
//! uses for external-identity documents and ephemeral request state.  Once
//! capacity is exceeded the least-recently-used entry is evicted, so this
//! backend must never hold the authoritative copy of an access or refresh
//! token.
//!
//! The view is the pair of a key-to-entry map and a recency order (most
//! recent first); every operation's contract states both.

use vstd::prelude::*;
use crate::assoc::{
    keyed_map, lemma_keyed_map_contains, lemma_keyed_map_index, lemma_keyed_map_prepend,
    lemma_keyed_map_remove, lemma_unique_prepend, lemma_unique_remove, unique_keys,
};
use crate::text::str_eq;

verus! {

/// One cached document.
#[derive(Clone, Debug)]
pub struct CacheEntry {
    pub key: String,
    pub value: String,
}

/// The mathematical view of a [`CacheEntry`].
#[verifier::ext_equal]
pub struct CacheEntryV {
    pub key: Seq<char>,
    pub value: Seq<char>,
}

impl View for CacheEntry {
    type V = CacheEntryV;

    open spec fn view(&self) -> CacheEntryV {
        CacheEntryV { key: self.key@, value: self.value@ }
    }
}

/// The key of a cache entry view.
pub open spec fn ckey() -> spec_fn(CacheEntryV) -> Seq<char> {
    |e: CacheEntryV| e.key
}

/// A bounded LRU cache of string documents.
pub struct LruCache {
    capacity: usize,
    entries: Vec<CacheEntry>,
}

impl LruCache {
    /// The entries, most recently used first.
    pub closed spec fn order(self) -> Seq<CacheEntryV> {
        self.entries@.map_values(|e: CacheEntry| e@)
    }

    /// The map the cache denotes.
    pub closed spec fn contents(self) -> Map<Seq<char>, CacheEntryV> {
        keyed_map(self.order(), ckey())
    }

    /// The configured capacity.
    pub closed spec fn spec_capacity(self) -> usize {
        self.capacity
    }

    /// Well-formed: unique keys, within capacity, capacity positive.
    pub closed spec fn wf(self) -> bool {
        unique_keys(self.order(), ckey()) && self.order().len() <= self.capacity
            && self.capacity >= 1
    }

    /// An empty cache of the given capacity.
    pub fn new(capacity: usize) -> (r: LruCache)
        requires
            capacity >= 1,
        ensures
            r.wf(),
            r.spec_capacity() == capacity,
            r.order() == Seq::<CacheEntryV>::empty(),
            r.contents() == Map::<Seq<char>, CacheEntryV>::empty(),
    {
        let r = LruCache { capacity, entries: Vec::new() };
        proof {
            assert(r.order() =~= Seq::<CacheEntryV>::empty());
        }
        r
    }

    /// How many entries the cache holds.
    pub fn len(&self) -> (r: usize)
        ensures
            r == self.order().len(),
    {
        self.entries.len()
    }

    /// The index of the entry carrying key `k`, if any.
    fn find_index(&self, k: &str) -> (r: Option<usize>)
        ensures
            match r {
                Some(i) => i < self.order().len() && self.order()[i as int].key == k@,
                None => forall|i: int|
                    0 <= i < self.order().len() ==> (#[trigger] self.order()[i]).key != k@,
            },
    {
        let n = self.entries.len();
        let mut i: usize = 0;
        while i < n
            invariant
                n == self.entries.len(),
                i <= n,
                self.order().len() == n,
                forall|j: int| 0 <= j < i ==> (#[trigger] self.order()[j]).key != k@,
            decreases n - i,
        {
            proof {
                assert(self.order()[i as int] == self.entries@[i as int]@);
            }
            if str_eq(self.entries[i].key.as_str(), k) {
                return Some(i);
            }
            i += 1;
        }
        None
    }

    /// Look a document up and mark it most recently used.  The map is
    /// unchanged; a hit moves the entry to the front of the recency
    /// order.
    pub fn get(&mut self, k: &str) -> (r: Option<String>)
        requires
            old(self).wf(),
        ensures
            final(self).wf(),
            final(self).spec_capacity() == old(self).spec_capacity(),
            final(self).contents() == old(self).contents(),
            match r {
                Some(v) => old(self).contents().contains_key(k@) && v@ == old(
                    self,
                ).contents()[k@].value && exists|i: int|
                    0 <= i < old(self).order().len() && old(self).order()[i].key == k@ && final(self).order() == seq![old(self).order()[i]] + old(self).order().remove(i),
                None => !old(self).contents().contains_key(k@) && *final(self) == *old(self),
            },
    {
        match self.find_index(k) {
            Some(i) => {
                proof {
                    lemma_keyed_map_index(self.order(), ckey(), i as int);
                    lemma_keyed_map_remove(self.order(), ckey(), i as int);
                    lemma_unique_remove(self.order(), ckey(), i as int);
                }
                let ghost old_order = self.order();
                let e = self.entries.remove(i);
                proof {
                    assert(e@ == old_order[i as int]);
                    assert(self.order() =~= old_order.remove(i as int));
                    assert forall|j: int| 0 <= j < self.order().len() implies ckey()(
                        #[trigger] self.order()[j],
                    ) != ckey()(e@) by {
                        let j0 = if j < i as int { j } else { j + 1 };
                        assert(self.order()[j] == old_order[j0]);
                        assert(ckey()(old_order[j0]) != ckey()(old_order[i as int]));
                    }
                    lemma_unique_prepend(self.order(), ckey(), e@);
                    lemma_keyed_map_prepend(self.order(), ckey(), e@);
                }
                let value = e.value.clone();
                let ghost mid_order = self.order();
                self.entries.insert(0, e);
                proof {
                    assert(self.order() =~= seq![old_order[i as int]] + mid_order);
                    assert(self.order() == seq![old(self).order()[i as int]] + old(
                        self,
                    ).order().remove(i as int));
                    // removing then re-inserting the same entry restores the map
                    assert(self.contents() =~= old(self).contents());
                }
                Some(value)
            },
            None => {
                proof {
                    lemma_keyed_map_contains(self.order(), ckey(), k@);
                }
                None
            },
        }
    }

    /// Insert or refresh a document and mark it most recently used.  An
    /// existing key is overwritten in place of rank; a fresh key enters at
    /// the front, and when the cache is full the least-recently-used entry
    /// leaves to make room.
    pub fn put(&mut self, k: String, v: String)
        requires
            old(self).wf(),
        ensures
            final(self).wf(),
            final(self).spec_capacity() == old(self).spec_capacity(),
            final(self).order().len() <= old(self).spec_capacity(),
            final(self).order()[0] == (CacheEntryV { key: k@, value: v@ }),
            if old(self).contents().contains_key(k@) {
                // refresh: same keys, the entry rewritten and moved front
                exists|i: int|
                    0 <= i < old(self).order().len() && old(self).order()[i].key == k@ && final(self).order() == seq![CacheEntryV { key: k@, value: v@ }] + old(
                        self,
                    ).order().remove(i) && final(self).contents() == old(self).contents().insert(
                        k@,
                        CacheEntryV { key: k@, value: v@ },
                    )
            } else if old(self).order().len() < old(self).spec_capacity() {
                // room left: the new entry simply enters at the front
                final(self).order() == seq![CacheEntryV { key: k@, value: v@ }] + old(
                    self,
                ).order() && final(self).contents() == old(self).contents().insert(
                    k@,
                    CacheEntryV { key: k@, value: v@ },
                )
            } else {
                // full: the least-recently-used entry is evicted
                final(self).order() == seq![CacheEntryV { key: k@, value: v@ }] + old(
                    self,
                ).order().drop_last() && final(self).contents() == old(self).contents().remove(
                    old(self).order().last().key,
                ).insert(k@, CacheEntryV { key: k@, value: v@ })
            },
    {
        let entry = CacheEntry { key: k, value: v };
        match self.find_index(entry.key.as_str()) {
            Some(i) => {
                proof {
                    lemma_keyed_map_contains(self.order(), ckey(), entry.key@);
                    lemma_keyed_map_remove(self.order(), ckey(), i as int);
                    lemma_unique_remove(self.order(), ckey(), i as int);
                }
                let ghost old_order = self.order();
                let _ = self.entries.remove(i);
                proof {
                    assert(self.order() =~= old_order.remove(i as int));
                    assert forall|j: int| 0 <= j < self.order().len() implies ckey()(
                        #[trigger] self.order()[j],
                    ) != ckey()(entry@) by {
                        let j0 = if j < i as int { j } else { j + 1 };
                        assert(self.order()[j] == old_order[j0]);
                        assert(ckey()(old_order[j0]) != ckey()(old_order[i as int]));
                    }
                    lemma_unique_prepend(self.order(), ckey(), entry@);
                    lemma_keyed_map_prepend(self.order(), ckey(), entry@);
                }
                let ghost mid_order = self.order();
                let ghost ev = entry@;
                self.entries.insert(0, entry);
                proof {
                    assert(self.order() =~= seq![ev] + mid_order);
                    assert(self.contents() =~= old(self).contents().insert(ev.key, ev));
                }
            },
            None => {
                proof {
                    lemma_keyed_map_contains(self.order(), ckey(), entry.key@);
                }
                if self.entries.len() == self.capacity {
                    proof {
                        lemma_keyed_map_remove(
                            self.order(),
                            ckey(),
                            self.order().len() - 1,
                        );
                        lemma_unique_remove(self.order(), ckey(), self.order().len() - 1);
                    }
                    let ghost old_order = self.order();
                    let _ = self.entries.pop();
                    proof {
                        assert(self.order() =~= old_order.drop_last());
                        assert(old_order.remove(old_order.len() - 1) =~= old_order.drop_last());
                    }
                }
                let ghost base_order = self.order();
                proof {
                    assert forall|j: int| 0 <= j < self.order().len() implies ckey()(
                        #[trigger] self.order()[j],
                    ) != ckey()(entry@) by {
                        if old(self).order().len() == base_order.len() {
                            assert(self.order()[j] == old(self).order()[j]);
                        } else {
                            assert(self.order()[j] == old(self).order()[j]);
                        }
                    }
                    lemma_unique_prepend(self.order(), ckey(), entry@);
                    lemma_keyed_map_prepend(self.order(), ckey(), entry@);
                }
                let ghost ev = entry@;
                self.entries.insert(0, entry);
                proof {
                    assert(self.order() =~= seq![ev] + base_order);
                    if old(self).order().len() == old(self).spec_capacity() {
                        assert(base_order =~= old(self).order().drop_last());
                        assert(self.contents() =~= old(self).contents().remove(
                            old(self).order().last().key,
                        ).insert(ev.key, ev));
                    } else {
                        assert(base_order =~= old(self).order());
                        assert(self.contents() =~= old(self).contents().insert(ev.key, ev));
                    }
                }
            },
        }
    }
}

} // verus!
