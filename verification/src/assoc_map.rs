//! A finite map kept as two parallel vectors, keyed by anything whose
//! equality is decided on its view.
use vstd::prelude::*;
use crate::ids::ViewEq;

verus! {

/// A finite map from keys to values. No two stored keys have the same view.
pub struct AssocMap<K: ViewEq, V> {
    keys: Vec<K>,
    vals: Vec<V>,
}

impl<K: ViewEq, V> AssocMap<K, V> {
    /// Parallel vectors of equal length, with no two key views equal.
    pub closed spec fn wf(self) -> bool {
        &&& self.keys.len() == self.vals.len()
        &&& forall|i: int, j: int|
            0 <= i < self.keys.len() && 0 <= j < self.keys.len() && i != j ==> #[trigger] self.keys[i]@
                != #[trigger] self.keys[j]@
    }

    /// Whether some stored key has view `k`.
    pub closed spec fn has(self, k: K::V) -> bool {
        exists|i: int| 0 <= i < self.keys.len() && #[trigger] self.keys[i]@ == k
    }

    /// The value stored under the key whose view is `k`.
    pub closed spec fn value_at(self, k: K::V) -> V {
        self.vals[choose|i: int| 0 <= i < self.keys.len() && #[trigger] self.keys[i]@ == k]
    }

    /// The map that this value stands for.
    pub closed spec fn as_map(self) -> Map<K::V, V> {
        Map::new(|k: K::V| self.has(k), |k: K::V| self.value_at(k))
    }

    proof fn lemma_at_index(self, i: int)
        requires
            self.wf(),
            0 <= i < self.keys.len(),
        ensures
            self.as_map().contains_key(self.keys[i]@),
            self.as_map()[self.keys[i]@] == self.vals[i],
    {
        let k = self.keys[i]@;
        assert(self.has(k));
        let j = choose|j: int| 0 <= j < self.keys.len() && #[trigger] self.keys[j]@ == k;
        assert(self.keys[j]@ == k);
        assert(j == i);
    }

    /// An empty map.
    pub fn new() -> (r: Self)
        ensures
            r.wf(),
            r@ == Map::<K::V, V>::empty(),
    {
        let r = AssocMap { keys: Vec::new(), vals: Vec::new() };
        assert(r.as_map() =~= Map::<K::V, V>::empty());
        r
    }

    /// The number of entries.
    pub fn len(&self) -> (r: usize)
        requires
            self.wf(),
        ensures
            r == self@.len(),
    {
        let n = self.keys.len();
        proof {
            let ks = Seq::new(n as nat, |i: int| self.keys[i]@);
            assert forall|q: K::V| #[trigger] self@.dom().contains(q) == ks.to_set().contains(q) by {
                if self.has(q) {
                    let j = choose|j: int| 0 <= j < self.keys.len() && #[trigger] self.keys[j]@ == q;
                    assert(ks[j] == q);
                }
                if ks.contains(q) {
                    let j = choose|j: int| 0 <= j < ks.len() && ks[j] == q;
                    assert(self.keys[j]@ == q);
                }
            }
            assert(self@.dom() =~= ks.to_set());
            ks.unique_seq_to_set();
        }
        n
    }

    fn index_of(&self, k: &K) -> (r: Option<usize>)
        ensures
            match r {
                Some(i) => i < self.keys.len() && self.keys[i as int]@ == k@,
                None => !self.has(k@),
            },
    {
        let mut i: usize = 0;
        while i < self.keys.len()
            invariant
                0 <= i <= self.keys.len(),
                forall|j: int| 0 <= j < i ==> self.keys[j]@ != k@,
            decreases self.keys.len() - i,
        {
            if self.keys[i].view_eq(k) {
                return Some(i);
            }
            i = i + 1;
        }
        None
    }

    /// Whether a key with the view of `k` is stored.
    pub fn contains_key(&self, k: &K) -> (r: bool)
        ensures
            r == self@.contains_key(k@),
    {
        self.index_of(k).is_some()
    }

    /// The value stored under `k`, if any.
    pub fn get(&self, k: &K) -> (r: Option<&V>)
        requires
            self.wf(),
        ensures
            match r {
                Some(v) => self@.contains_key(k@) && *v == self@[k@],
                None => !self@.contains_key(k@),
            },
    {
        match self.index_of(k) {
            Some(i) => {
                proof {
                    self.lemma_at_index(i as int);
                }
                Some(&self.vals[i])
            },
            None => None,
        }
    }

    /// Stores `v` under `k`, replacing what was stored under an equal key.
    pub fn insert(&mut self, k: K, v: V)
        requires
            old(self).wf(),
        ensures
            final(self).wf(),
            final(self)@ == old(self)@.insert(k@, v),
    {
        let ghost old_map = self.as_map();
        let ghost kv = k@;
        match self.index_of(&k) {
            Some(i) => {
                let ghost old_self = *self;
                self.vals.set(i, v);
                proof {
                    assert forall|q: K::V| #[trigger] self.has(q) == old_self.has(q) by {
                        if old_self.has(q) {
                            let j = choose|j: int| 0 <= j < old_self.keys.len() && #[trigger] old_self.keys[j]@ == q;
                            assert(self.keys[j]@ == q);
                        }
                        if self.has(q) {
                            let j = choose|j: int| 0 <= j < self.keys.len() && #[trigger] self.keys[j]@ == q;
                            assert(old_self.keys[j]@ == q);
                        }
                    }
                    assert forall|q: K::V| self.has(q) implies #[trigger] self.value_at(q)
                        == old_map.insert(kv, v)[q] by {
                        let j = choose|j: int| 0 <= j < self.keys.len() && #[trigger] self.keys[j]@ == q;
                        self.lemma_at_index(j);
                        if j != i as int {
                            old_self.lemma_at_index(j);
                        }
                    }
                    assert(self.as_map() =~= old_map.insert(kv, v));
                }
            },
            None => {
                let ghost old_self = *self;
                self.keys.push(k);
                self.vals.push(v);
                proof {
                    let n = old_self.keys.len() as int;
                    assert(self.keys[n]@ == kv);
                    assert forall|q: K::V| #[trigger] self.has(q) == (old_self.has(q) || q == kv) by {
                        if old_self.has(q) {
                            let j = choose|j: int| 0 <= j < old_self.keys.len() && #[trigger] old_self.keys[j]@ == q;
                            assert(self.keys[j]@ == q);
                        }
                        if self.has(q) {
                            let j = choose|j: int| 0 <= j < self.keys.len() && #[trigger] self.keys[j]@ == q;
                            if j < n {
                                assert(old_self.keys[j]@ == q);
                            }
                        }
                    }
                    assert forall|i: int, j: int|
                        0 <= i < self.keys.len() && 0 <= j < self.keys.len() && i != j implies #[trigger] self.keys[i]@
                            != #[trigger] self.keys[j]@ by {
                        if i == n {
                            assert(old_self.keys[j]@ != kv) by {
                                if old_self.keys[j]@ == kv {
                                    assert(old_self.has(kv));
                                }
                            }
                        } else if j == n {
                            assert(old_self.keys[i]@ != kv) by {
                                if old_self.keys[i]@ == kv {
                                    assert(old_self.has(kv));
                                }
                            }
                        } else {
                            assert(old_self.keys[i] == self.keys[i]);
                            assert(old_self.keys[j] == self.keys[j]);
                        }
                    }
                    assert forall|q: K::V| self.has(q) implies #[trigger] self.value_at(q)
                        == old_map.insert(kv, v)[q] by {
                        let j = choose|j: int| 0 <= j < self.keys.len() && #[trigger] self.keys[j]@ == q;
                        self.lemma_at_index(j);
                        if j < n {
                            old_self.lemma_at_index(j);
                        }
                    }
                    assert(self.as_map() =~= old_map.insert(kv, v));
                }
            },
        }
    }
}

impl<K: ViewEq, V> AssocMap<K, V> {
    /// Removes what is stored under `k` and hands it back.
    pub fn remove(&mut self, k: &K) -> (r: Option<V>)
        requires
            old(self).wf(),
        ensures
            final(self).wf(),
            final(self)@ == old(self)@.remove(k@),
            match r {
                Some(v) => old(self)@.contains_key(k@) && v == old(self)@[k@],
                None => !old(self)@.contains_key(k@),
            },
    {
        let ghost old_self = *self;
        let ghost old_map = self.as_map();
        match self.index_of(k) {
            None => {
                assert(self.as_map() =~= old_map.remove(k@));
                None
            },
            Some(i) => {
                proof {
                    old_self.lemma_at_index(i as int);
                }
                let n = self.keys.len();
                let ghost last = (n - 1) as int;
                self.keys.swap_remove(i);
                let v = self.vals.swap_remove(i);
                proof {
                    let kv = k@;
                    // entries other than i keep their index, but the last moves to i
                    assert forall|j: int| 0 <= j < self.keys.len() implies #[trigger] self.keys[j]
                        == (if j == i { old_self.keys[last] } else { old_self.keys[j] }) && self.vals[j]
                        == (if j == i { old_self.vals[last] } else { old_self.vals[j] }) by {}
                    assert forall|a: int, b: int|
                        0 <= a < self.keys.len() && 0 <= b < self.keys.len() && a != b implies #[trigger] self.keys[a]@
                            != #[trigger] self.keys[b]@ by {
                        let oa = if a == i { last } else { a };
                        let ob = if b == i { last } else { b };
                        assert(old_self.keys[oa]@ != old_self.keys[ob]@);
                    }
                    assert forall|q: K::V| #[trigger] self.has(q) == (old_self.has(q) && q != kv) by {
                        if self.has(q) {
                            let j = choose|j: int| 0 <= j < self.keys.len() && #[trigger] self.keys[j]@ == q;
                            let oj = if j == i { last } else { j };
                            assert(old_self.keys[oj]@ == q);
                            assert(oj != i);
                        }
                        if old_self.has(q) && q != kv {
                            let j = choose|j: int| 0 <= j < old_self.keys.len() && #[trigger] old_self.keys[j]@ == q;
                            assert(j != i);
                            if j == last {
                                assert(self.keys[i as int]@ == q);
                            } else {
                                assert(self.keys[j]@ == q);
                            }
                        }
                    }
                    assert forall|q: K::V| self.has(q) implies #[trigger] self.value_at(q)
                        == old_map.remove(kv)[q] by {
                        let j = choose|j: int| 0 <= j < self.keys.len() && #[trigger] self.keys[j]@ == q;
                        self.lemma_at_index(j);
                        let oj = if j == i { last } else { j };
                        old_self.lemma_at_index(oj);
                    }
                    assert(self.as_map() =~= old_map.remove(kv));
                }
                Some(v)
            },
        }
    }
}

impl<K: ViewEq, V> View for AssocMap<K, V> {
    type V = Map<K::V, V>;

    open spec fn view(&self) -> Map<K::V, V> {
        self.as_map()
    }
}

} // verus!
