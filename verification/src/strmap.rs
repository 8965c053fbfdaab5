//! An ordered map from `String` keys to values, iterated in key order, as the
//! daemon's registries (runs, tenants, listings, ratings) are.
use vstd::prelude::*;
use crate::text::{key_lt, lemma_key_lt_irreflexive, lemma_key_lt_total, lemma_key_lt_transitive, str_eq, str_less};

verus! {

/// Entries kept sorted by key, keys unique.
#[derive(Debug)]
pub struct StrMap<V> {
    keys: Vec<String>,
    vals: Vec<V>,
}

impl<V> StrMap<V> {
    /// The keys, in increasing order.
    pub closed spec fn key_seq(&self) -> Seq<Seq<char>> {
        self.keys@.map_values(|k: String| k@)
    }

    /// The values, in the order of their keys.
    pub closed spec fn val_seq(&self) -> Seq<V> {
        self.vals@
    }

    /// Keys and values line up, and keys strictly increase.
    pub open spec fn wf(&self) -> bool {
        &&& self.key_seq().len() == self.val_seq().len()
        &&& forall|i: int, j: int|
            0 <= i < j < self.key_seq().len() ==> key_lt(
                #[trigger] self.key_seq()[i],
                #[trigger] self.key_seq()[j],
            )
    }

    pub open spec fn has(&self, k: Seq<char>) -> bool {
        exists|i: int| 0 <= i < self.key_seq().len() && self.key_seq()[i] == k
    }

    /// The position of a key that the map holds.
    pub open spec fn pos(&self, k: Seq<char>) -> int {
        choose|i: int| 0 <= i < self.key_seq().len() && self.key_seq()[i] == k
    }

    /// The value stored under `k`, if any.
    pub open spec fn lookup(&self, k: Seq<char>) -> Option<V> {
        if self.has(k) {
            Some(self.val_seq()[self.pos(k)])
        } else {
            None
        }
    }

    pub proof fn lemma_unique(&self, i: int, j: int)
        requires
            self.wf(),
            0 <= i < self.key_seq().len(),
            0 <= j < self.key_seq().len(),
            self.key_seq()[i] == self.key_seq()[j],
        ensures
            i == j,
    {
        if i < j {
            lemma_key_lt_irreflexive(self.key_seq()[i]);
        } else if j < i {
            lemma_key_lt_irreflexive(self.key_seq()[i]);
        }
    }

    pub proof fn lemma_pos(&self, i: int)
        requires
            self.wf(),
            0 <= i < self.key_seq().len(),
        ensures
            self.has(self.key_seq()[i]),
            self.pos(self.key_seq()[i]) == i,
            self.lookup(self.key_seq()[i]) == Some(self.val_seq()[i]),
    {
        let k = self.key_seq()[i];
        assert(self.has(k));
        self.lemma_unique(i, self.pos(k));
    }

    pub fn new() -> (m: Self)
        ensures
            m.wf(),
            m.key_seq().len() == 0,
    {
        let m = StrMap { keys: Vec::new(), vals: Vec::new() };
        assert(m.key_seq() =~= Seq::<Seq<char>>::empty());
        m
    }

    pub fn len(&self) -> (n: usize)
        requires
            self.wf(),
        ensures
            n == self.key_seq().len(),
    {
        self.keys.len()
    }

    pub fn key_at(&self, i: usize) -> (k: &String)
        requires
            self.wf(),
            i < self.key_seq().len(),
        ensures
            k@ == self.key_seq()[i as int],
    {
        &self.keys[i]
    }

    pub fn value_at(&self, i: usize) -> (v: &V)
        requires
            self.wf(),
            i < self.key_seq().len(),
        ensures
            *v == self.val_seq()[i as int],
    {
        &self.vals[i]
    }

    /// The first position whose key is not below `k`.
    fn lower_bound(&self, k: &str) -> (p: usize)
        requires
            self.wf(),
        ensures
            p <= self.key_seq().len(),
            forall|j: int| 0 <= j < p ==> key_lt(#[trigger] self.key_seq()[j], k@),
            p < self.key_seq().len() ==> !key_lt(self.key_seq()[p as int], k@),
    {
        let mut p: usize = 0;
        while p < self.keys.len()
            invariant
                self.wf(),
                p <= self.key_seq().len(),
                forall|j: int| 0 <= j < p ==> key_lt(#[trigger] self.key_seq()[j], k@),
            decreases self.key_seq().len() - p,
        {
            if !str_less(self.keys[p].as_str(), k) {
                return p;
            }
            p = p + 1;
        }
        p
    }

    /// Where `k` stands, if the map holds it.
    pub fn find(&self, k: &str) -> (r: Option<usize>)
        requires
            self.wf(),
        ensures
            r matches Some(i) ==> i < self.key_seq().len() && self.key_seq()[i as int] == k@,
            r is None ==> !self.has(k@),
    {
        let p = self.lower_bound(k);
        if p < self.keys.len() && str_eq(self.keys[p].as_str(), k) {
            return Some(p);
        }
        proof {
            if self.has(k@) {
                let i = self.pos(k@);
                lemma_key_lt_irreflexive(k@);
                if i > p {
                    lemma_key_lt_total(self.key_seq()[p as int], k@);
                }
            }
        }
        None
    }

    pub fn contains(&self, k: &str) -> (b: bool)
        requires
            self.wf(),
        ensures
            b == self.has(k@),
    {
        self.find(k).is_some()
    }

    pub fn get(&self, k: &str) -> (r: Option<&V>)
        requires
            self.wf(),
        ensures
            r matches Some(v) ==> self.lookup(k@) == Some(*v),
            r is None ==> self.lookup(k@) is None,
    {
        match self.find(k) {
            Some(i) => {
                proof {
                    self.lemma_pos(i as int);
                }
                Some(&self.vals[i])
            },
            None => None,
        }
    }

    /// Replaces the value at a position, keys unchanged.
    pub fn set_at(&mut self, i: usize, v: V)
        requires
            old(self).wf(),
            i < old(self).key_seq().len(),
        ensures
            final(self).wf(),
            final(self).key_seq() == old(self).key_seq(),
            final(self).val_seq() == old(self).val_seq().update(i as int, v),
            forall|q: Seq<char>| #[trigger]
                final(self).lookup(q) == if q == old(self).key_seq()[i as int] {
                    Some(v)
                } else {
                    old(self).lookup(q)
                },
    {
        self.vals.set(i, v);
        proof {
            self.lemma_lookup_after_set(*old(self), i as int, v);
        }
    }

    /// The value at a position, to be changed in place; keys unchanged.
    pub fn value_mut_at(&mut self, i: usize) -> (v: &mut V)
        requires
            old(self).wf(),
            i < old(self).key_seq().len(),
        ensures
            *v == old(self).val_seq()[i as int],
            final(self).key_seq() == old(self).key_seq(),
            final(self).val_seq() == old(self).val_seq().update(i as int, *final(v)),
    {
        &mut self.vals[i]
    }

    /// Inserts or replaces the value under `k`.
    pub fn insert(&mut self, k: String, v: V)
        requires
            old(self).wf(),
        ensures
            final(self).wf(),
            old(self).has(k@) ==> final(self).key_seq() == old(self).key_seq()
                && final(self).val_seq() == old(self).val_seq().update(old(self).pos(k@), v),
            !old(self).has(k@) ==> exists|p: int|
                0 <= p <= old(self).key_seq().len() && final(self).key_seq() == old(
                    self,
                ).key_seq().insert(p, k@) && final(self).val_seq() == old(self).val_seq().insert(
                    p,
                    v,
                ),
            forall|q: Seq<char>| #[trigger]
                final(self).lookup(q) == if q == k@ {
                    Some(v)
                } else {
                    old(self).lookup(q)
                },
    {
        let p = self.lower_bound(k.as_str());
        if p < self.keys.len() && str_eq(self.keys[p].as_str(), k.as_str()) {
            proof {
                old(self).lemma_pos(p as int);
            }
            self.vals.set(p, v);
            proof {
                self.lemma_lookup_after_set(*old(self), p as int, v);
            }
            return ;
        }
        proof {
            if old(self).has(k@) {
                let i = old(self).pos(k@);
                lemma_key_lt_irreflexive(k@);
                if i > p {
                    lemma_key_lt_total(old(self).key_seq()[p as int], k@);
                }
            }
        }
        let ghost ks = old(self).key_seq();
        self.keys.insert(p, k);
        self.vals.insert(p, v);
        proof {
            assert(self.key_seq() =~= ks.insert(p as int, k@));
            if p < ks.len() {
                lemma_key_lt_total(ks[p as int], k@);
            }
            assert forall|i: int, j: int|
                0 <= i < j < self.key_seq().len() implies key_lt(
                #[trigger] self.key_seq()[i],
                #[trigger] self.key_seq()[j],
            ) by {
                if j < p {
                } else if j == p {
                } else if i < p {
                    // i before the new key, j after it
                    if p < ks.len() {
                        if j - 1 > p {
                            lemma_key_lt_transitive(k@, ks[p as int], ks[j - 1]);
                        }
                        lemma_key_lt_transitive(ks[i], k@, ks[j - 1]);
                    }
                } else if i == p {
                    if j - 1 > p {
                        lemma_key_lt_transitive(k@, ks[p as int], ks[j - 1]);
                    }
                } else {
                }
            }
            self.lemma_lookup_after_insert(*old(self), p as int, k@, v);
        }
    }

    pub proof fn lemma_lookup_after_set(&self, prev: Self, p: int, v: V)
        requires
            prev.wf(),
            self.wf(),
            0 <= p < prev.key_seq().len(),
            self.key_seq() == prev.key_seq(),
            self.val_seq() == prev.val_seq().update(p, v),
        ensures
            forall|q: Seq<char>| #[trigger]
                self.lookup(q) == if q == prev.key_seq()[p] {
                    Some(v)
                } else {
                    prev.lookup(q)
                },
    {
        assert forall|q: Seq<char>| #[trigger]
            self.lookup(q) == if q == prev.key_seq()[p] {
                Some(v)
            } else {
                prev.lookup(q)
            } by {
            if self.has(q) {
                let i = self.pos(q);
                self.lemma_pos(i);
                prev.lemma_pos(i);
                if i == p {
                } else {
                    if q == prev.key_seq()[p] {
                        prev.lemma_unique(i, p);
                    }
                }
            } else {
                if prev.has(q) {
                    let i = prev.pos(q);
                    assert(self.key_seq()[i] == q);
                }
            }
        }
    }

    proof fn lemma_lookup_after_insert(&self, prev: Self, p: int, k: Seq<char>, v: V)
        requires
            prev.wf(),
            self.wf(),
            0 <= p <= prev.key_seq().len(),
            self.key_seq() == prev.key_seq().insert(p, k),
            self.val_seq() == prev.val_seq().insert(p, v),
        ensures
            forall|q: Seq<char>| #[trigger]
                self.lookup(q) == if q == k {
                    Some(v)
                } else {
                    prev.lookup(q)
                },
    {
        assert forall|q: Seq<char>| #[trigger]
            self.lookup(q) == if q == k {
                Some(v)
            } else {
                prev.lookup(q)
            } by {
            if q == k {
                assert(self.key_seq()[p] == k);
                self.lemma_pos(p);
            } else if self.has(q) {
                let i = self.pos(q);
                self.lemma_pos(i);
                if i < p {
                    prev.lemma_pos(i);
                } else {
                    assert(i != p);
                    prev.lemma_pos(i - 1);
                }
            } else {
                if prev.has(q) {
                    let i = prev.pos(q);
                    if i < p {
                        assert(self.key_seq()[i] == q);
                    } else {
                        assert(self.key_seq()[i + 1] == q);
                    }
                }
            }
        }
    }

    /// Removes and returns the entry under `k`.
    pub fn remove(&mut self, k: &str) -> (r: Option<V>)
        requires
            old(self).wf(),
        ensures
            final(self).wf(),
            r is None ==> !old(self).has(k@) && *final(self) == *old(self),
            r matches Some(v) ==> old(self).has(k@) && old(self).lookup(k@) == Some(v)
                && final(self).key_seq() == old(self).key_seq().remove(old(self).pos(k@))
                && final(self).val_seq() == old(self).val_seq().remove(old(self).pos(k@)),
    {
        match self.find(k) {
            None => None,
            Some(i) => {
                proof {
                    old(self).lemma_pos(i as int);
                }
                let ghost ks = old(self).key_seq();
                self.keys.remove(i);
                let v = self.vals.remove(i);
                proof {
                    assert(self.key_seq() =~= ks.remove(i as int));
                    assert forall|a: int, b: int|
                        0 <= a < b < self.key_seq().len() implies key_lt(
                        #[trigger] self.key_seq()[a],
                        #[trigger] self.key_seq()[b],
                    ) by {
                        if a < i && b >= i {
                            assert(ks[a] == self.key_seq()[a]);
                            assert(ks[b + 1] == self.key_seq()[b]);
                        } else if a >= i {
                            assert(ks[a + 1] == self.key_seq()[a]);
                            assert(ks[b + 1] == self.key_seq()[b]);
                        }
                    }
                }
                Some(v)
            },
        }
    }
}

} // verus!
