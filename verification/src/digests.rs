//! Collections with digests for keys.
use vstd::prelude::*;

use crate::primitives::H256;

verus! {

/// A set of digests.
#[derive(Debug)]
pub struct DigestSet {
    items: Vec<H256>,
}

impl View for DigestSet {
    type V = Set<H256>;

    closed spec fn view(&self) -> Set<H256> {
        self.items@.to_set()
    }
}

impl DigestSet {
    /// No digest is held twice.
    pub closed spec fn wf(self) -> bool {
        self.items@.no_duplicates()
    }

    /// The empty set.
    pub fn new() -> (set: Self)
        ensures
            set.wf(),
            set@ == Set::<H256>::empty(),
    {
        let set = DigestSet { items: Vec::new() };
        assert(set@ =~= Set::<H256>::empty());
        set
    }

    /// Whether the set holds the digest.
    pub fn contains(&self, digest: &H256) -> (found: bool)
        ensures
            found == self@.contains(*digest),
    {
        let mut i: usize = 0;
        while i < self.items.len()
            invariant
                0 <= i <= self.items@.len(),
                forall|j: int| 0 <= j < i ==> self.items@[j] != *digest,
            decreases self.items@.len() - i,
        {
            if self.items[i] == *digest {
                return true;
            }
            i = i + 1;
        }
        false
    }

    /// Puts a digest into the set.
    pub fn insert(&mut self, digest: H256)
        requires
            old(self).wf(),
        ensures
            final(self).wf(),
            final(self)@ == old(self)@.insert(digest),
    {
        if !self.contains(&digest) {
            proof {
                self.items@.lemma_push_to_set_commute(digest);
            }
            self.items.push(digest);
        } else {
            assert(self@.insert(digest) =~= self@);
        }
    }
}

/// A map from digests.
#[derive(Debug)]
pub struct DigestMap<V> {
    entries: Vec<(H256, V)>,
}

impl<V> DigestMap<V> {
    /// The place of a digest among the entries.
    spec fn place(self, digest: H256) -> int {
        choose|i: int| 0 <= i < self.entries@.len() && (#[trigger] self.entries@[i]).0 == digest
    }

    /// Whether some entry has the digest.
    spec fn has(self, digest: H256) -> bool {
        exists|i: int| 0 <= i < self.entries@.len() && (#[trigger] self.entries@[i]).0 == digest
    }

    /// No digest has two entries.
    pub closed spec fn wf(self) -> bool {
        forall|i: int, j: int|
            0 <= i < j < self.entries@.len() ==> (#[trigger] self.entries@[i]).0 != (
            #[trigger] self.entries@[j]).0
    }
}

impl<V> View for DigestMap<V> {
    type V = Map<H256, V>;

    closed spec fn view(&self) -> Map<H256, V> {
        Map::new(|d: H256| self.has(d), |d: H256| self.entries@[self.place(d)].1)
    }
}

impl<V: Copy> DigestMap<V> {
    proof fn lemma_entry(self, i: int)
        requires
            self.wf(),
            0 <= i < self.entries@.len(),
        ensures
            self@.contains_key(self.entries@[i].0),
            self@[self.entries@[i].0] == self.entries@[i].1,
    {
        assert(self.has(self.entries@[i].0));
    }

    /// The empty map.
    pub fn new() -> (map: Self)
        ensures
            map.wf(),
            map@ == Map::<H256, V>::empty(),
    {
        let map = DigestMap { entries: Vec::new() };
        assert(map@ =~= Map::<H256, V>::empty());
        map
    }

    fn find(&self, digest: &H256) -> (place: Option<usize>)
        ensures
            match place {
                Some(i) => i < self.entries@.len() && self.entries@[i as int].0 == *digest,
                None => !self.has(*digest),
            },
    {
        let mut i: usize = 0;
        while i < self.entries.len()
            invariant
                0 <= i <= self.entries@.len(),
                forall|j: int| 0 <= j < i ==> (#[trigger] self.entries@[j]).0 != *digest,
            decreases self.entries@.len() - i,
        {
            if self.entries[i].0 == *digest {
                return Some(i);
            }
            i = i + 1;
        }
        None
    }

    /// What the map holds for the digest.
    pub fn get(&self, digest: &H256) -> (value: Option<V>)
        requires
            self.wf(),
        ensures
            value == (if self@.contains_key(*digest) {
                Some(self@[*digest])
            } else {
                None
            }),
    {
        match self.find(digest) {
            Some(i) => {
                proof {
                    self.lemma_entry(i as int);
                }
                Some(self.entries[i].1)
            },
            None => None,
        }
    }

    /// Takes the digest out of the map, and gives back what it stood for.
    pub fn remove(&mut self, digest: &H256) -> (value: Option<V>)
        requires
            old(self).wf(),
        ensures
            final(self).wf(),
            final(self)@ == old(self)@.remove(*digest),
            value == (if old(self)@.contains_key(*digest) {
                Some(old(self)@[*digest])
            } else {
                None
            }),
    {
        let ghost before = *self;
        match self.find(digest) {
            Some(i) => {
                let entry = self.entries.remove(i);
                proof {
                    before.lemma_entry(i as int);
                    assert forall|d: H256| self@.contains_key(d) implies before@.contains_key(d) && d
                        != *digest && self@[d] == before@[d] by {
                        let k = choose|k: int|
                            0 <= k < self.entries@.len() && (#[trigger] self.entries@[k]).0 == d;
                        let k0 = if k < i {
                            k
                        } else {
                            k + 1
                        };
                        assert(before.entries@[k0] == self.entries@[k]);
                        before.lemma_entry(k0);
                        self.lemma_entry(k);
                        assert(before.entries@[i as int].0 == *digest);
                    }
                    assert forall|d: H256| before@.contains_key(d) && d != *digest implies
                        self@.contains_key(d) by {
                        let k0 = choose|k: int|
                            0 <= k < before.entries@.len() && (#[trigger] before.entries@[k]).0
                                == d;
                        let k = if k0 < i {
                            k0
                        } else {
                            k0 - 1
                        };
                        assert(self.entries@[k] == before.entries@[k0]);
                        self.lemma_entry(k);
                    }
                    assert(self@ =~= before@.remove(*digest));
                }
                Some(entry.1)
            },
            None => {
                assert(!before@.contains_key(*digest));
                assert(self@ =~= before@.remove(*digest));
                None
            },
        }
    }

    /// Lets the digest stand for the value, and gives back what it stood for before.
    pub fn insert(&mut self, digest: H256, value: V) -> (previous: Option<V>)
        requires
            old(self).wf(),
        ensures
            final(self).wf(),
            final(self)@ == old(self)@.insert(digest, value),
            previous == (if old(self)@.contains_key(digest) {
                Some(old(self)@[digest])
            } else {
                None
            }),
    {
        let ghost before = self@;
        let previous = self.remove(&digest);
        let ghost without = *self;
        self.entries.push((digest, value));
        proof {
            assert(without@ == before.remove(digest));
            assert forall|j: int| 0 <= j < without.entries@.len() implies (
            #[trigger] without.entries@[j]).0 != digest by {
                without.lemma_entry(j);
            }
            assert(self.wf()) by {
                assert forall|i: int, j: int| 0 <= i < j < self.entries@.len() implies (
                #[trigger] self.entries@[i]).0 != (#[trigger] self.entries@[j]).0 by {
                    assert(self.entries@[i] == without.entries@[i]);
                    if j < without.entries@.len() {
                        assert(self.entries@[j] == without.entries@[j]);
                    }
                }
            }
            self.lemma_entry(without.entries@.len() as int);
            assert forall|d: H256| #[trigger] self@.contains_key(d) implies before.insert(
                digest,
                value,
            ).contains_key(d) && self@[d] == before.insert(digest, value)[d] by {
                let k = choose|k: int|
                    0 <= k < self.entries@.len() && (#[trigger] self.entries@[k]).0 == d;
                self.lemma_entry(k);
                if k < without.entries@.len() {
                    assert(without.entries@[k] == self.entries@[k]);
                    without.lemma_entry(k);
                }
            }
            assert forall|d: H256| #[trigger] before.insert(digest, value).contains_key(d) implies
                self@.contains_key(d) by {
                if d != digest {
                    assert(without@.contains_key(d));
                    let k = choose|k: int|
                        0 <= k < without.entries@.len() && (#[trigger] without.entries@[k]).0 == d;
                    assert(self.entries@[k] == without.entries@[k]);
                    self.lemma_entry(k);
                }
            }
            assert(self@.dom() =~= before.insert(digest, value).dom());
            assert(self@ =~= before.insert(digest, value));
        }
        previous
    }
}

} // verus!
