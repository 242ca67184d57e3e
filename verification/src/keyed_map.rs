use vstd::prelude::*;

verus! {

/// Keys of a `KeyedMap`: anything whose equality can be decided by its view.
pub trait MapKey: View + Sized {
    fn key_eq(&self, other: &Self) -> (r: bool)
        ensures
            r == (self@ == other@),
    ;

    fn key_clone(&self) -> (r: Self)
        ensures
            r@ == self@,
    ;
}

impl MapKey for u32 {
    fn key_eq(&self, other: &Self) -> (r: bool) {
        *self == *other
    }

    fn key_clone(&self) -> (r: Self) {
        *self
    }
}

impl MapKey for u64 {
    fn key_eq(&self, other: &Self) -> (r: bool) {
        *self == *other
    }

    fn key_clone(&self) -> (r: Self) {
        *self
    }
}

impl MapKey for u128 {
    fn key_eq(&self, other: &Self) -> (r: bool) {
        *self == *other
    }

    fn key_clone(&self) -> (r: Self) {
        *self
    }
}

impl MapKey for String {
    fn key_eq(&self, other: &Self) -> (r: bool) {
        *self == *other
    }

    fn key_clone(&self) -> (r: Self) {
        self.clone()
    }
}

impl<A: MapKey, B: MapKey> MapKey for (A, B) {
    fn key_eq(&self, other: &Self) -> (r: bool) {
        self.0.key_eq(&other.0) && self.1.key_eq(&other.1)
    }

    fn key_clone(&self) -> (r: Self) {
        (self.0.key_clone(), self.1.key_clone())
    }
}

/// A finite map that remembers the order in which its keys were first inserted.
///
/// Updating an existing key keeps its position; removing a key closes the gap.
/// This is the storage map the contracts keep their records in: listing the values
/// walks them in key-insertion order.
pub struct KeyedMap<K, V> {
    keys: Vec<K>,
    vals: Vec<V>,
}

impl<K: MapKey, V> KeyedMap<K, V> {
    /// The keys, by their views, in insertion order.
    pub closed spec fn key_seq(&self) -> Seq<K::V> {
        self.keys@.map_values(|k: K| k@)
    }

    /// The values, in the order of `key_seq`.
    pub closed spec fn val_seq(&self) -> Seq<V> {
        self.vals@
    }

    pub closed spec fn wf(&self) -> bool {
        &&& self.keys@.len() == self.vals@.len()
        &&& self.key_seq().no_duplicates()
    }

    pub open spec fn has(&self, k: K::V) -> bool {
        self.key_seq().contains(k)
    }

    pub open spec fn get_spec(&self, k: K::V) -> V {
        self.val_seq()[self.key_seq().index_of(k)]
    }

    pub open spec fn as_map(&self) -> Map<K::V, V> {
        Map::new(|k: K::V| self.has(k), |k: K::V| self.get_spec(k))
    }

    pub proof fn lemma_wf_lens(&self)
        requires
            self.wf(),
        ensures
            self.key_seq().len() == self.val_seq().len(),
    {
    }

    /// In a well-formed map, the value stored at position `i` is the value of the key at `i`.
    pub proof fn lemma_index(&self, i: int)
        requires
            self.wf(),
            0 <= i < self.key_seq().len(),
        ensures
            self.has(self.key_seq()[i]),
            self.key_seq().index_of(self.key_seq()[i]) == i,
            self.get_spec(self.key_seq()[i]) == self.val_seq()[i],
            self.as_map()[self.key_seq()[i]] == self.val_seq()[i],
    {
        let k = self.key_seq()[i];
        assert(self.key_seq().contains(k));
        let j = self.key_seq().index_of(k);
        assert(self.key_seq()[j] == k);
    }

    /// Keys at different positions differ.
    pub proof fn lemma_distinct(&self, i: int, j: int)
        requires
            self.wf(),
            0 <= i < self.key_seq().len(),
            0 <= j < self.key_seq().len(),
            i != j,
        ensures
            self.key_seq()[i] != self.key_seq()[j],
    {
    }

    /// A present key sits at a position inside the map, holding the map's value for it.
    pub proof fn lemma_has(&self, k: K::V)
        requires
            self.wf(),
            self.has(k),
        ensures
            0 <= self.key_seq().index_of(k) < self.key_seq().len(),
            self.key_seq().len() == self.val_seq().len(),
            self.key_seq()[self.key_seq().index_of(k)] == k,
            self.as_map().contains_key(k),
            self.as_map()[k] == self.val_seq()[self.key_seq().index_of(k)],
    {
        let i = choose|i: int| 0 <= i < self.key_seq().len() && self.key_seq()[i] == k;
        self.lemma_index(i);
    }

    pub fn new() -> (r: Self)
        ensures
            r.wf(),
            r.key_seq() == Seq::<K::V>::empty(),
            r.val_seq() == Seq::<V>::empty(),
            r.as_map() == Map::<K::V, V>::empty(),
    {
        let r = KeyedMap { keys: Vec::new(), vals: Vec::new() };
        assert(r.key_seq() =~= Seq::<K::V>::empty());
        assert(r.as_map() =~= Map::<K::V, V>::empty());
        r
    }

    pub fn len(&self) -> (n: usize)
        requires
            self.wf(),
        ensures
            n == self.key_seq().len(),
            n == self.val_seq().len(),
    {
        self.keys.len()
    }

    /// Position of `k`, if present.
    pub fn find(&self, k: &K) -> (r: Option<usize>)
        requires
            self.wf(),
        ensures
            match r {
                Some(i) => i < self.key_seq().len() && self.key_seq()[i as int] == k@
                    && self.key_seq().index_of(k@) == i,
                None => !self.has(k@),
            },
    {
        let n = self.keys.len();
        let mut i: usize = 0;
        while i < n
            invariant
                self.wf(),
                n == self.keys@.len(),
                i <= n,
                forall|j: int| 0 <= j < i ==> self.key_seq()[j] != k@,
            decreases n - i,
        {
            if self.keys[i].key_eq(k) {
                proof {
                    self.lemma_index(i as int);
                }
                return Some(i);
            }
            i = i + 1;
        }
        None
    }

    pub fn contains_key(&self, k: &K) -> (r: bool)
        requires
            self.wf(),
        ensures
            r == self.has(k@),
            r == self.as_map().contains_key(k@),
    {
        match self.find(k) {
            Some(_) => true,
            None => false,
        }
    }

    pub fn value_at(&self, i: usize) -> (r: &V)
        requires
            self.wf(),
            i < self.val_seq().len(),
        ensures
            *r == self.val_seq()[i as int],
    {
        &self.vals[i]
    }

    pub fn key_at(&self, i: usize) -> (r: &K)
        requires
            self.wf(),
            i < self.key_seq().len(),
        ensures
            r@ == self.key_seq()[i as int],
    {
        &self.keys[i]
    }

    pub fn get(&self, k: &K) -> (r: Option<&V>)
        requires
            self.wf(),
        ensures
            match r {
                Some(v) => self.as_map().contains_key(k@) && *v == self.as_map()[k@],
                None => !self.as_map().contains_key(k@),
            },
    {
        match self.find(k) {
            Some(i) => {
                proof {
                    self.lemma_index(i as int);
                }
                Some(&self.vals[i])
            },
            None => None,
        }
    }

    /// Set the value of `k`, keeping its position if it is present and appending it if not.
    pub fn insert(&mut self, k: K, v: V)
        requires
            old(self).wf(),
        ensures
            final(self).wf(),
            final(self).as_map() == old(self).as_map().insert(k@, v),
            old(self).has(k@) ==> final(self).key_seq() == old(self).key_seq(),
            old(self).has(k@) ==> final(self).val_seq() == old(self).val_seq().update(
                old(self).key_seq().index_of(k@),
                v,
            ),
            !old(self).has(k@) ==> final(self).key_seq() == old(self).key_seq().push(k@),
            !old(self).has(k@) ==> final(self).val_seq() == old(self).val_seq().push(v),
    {
        match self.find(&k) {
            Some(i) => {
                self.vals.set(i, v);
                proof {
                    assert(self.key_seq() =~= old(self).key_seq());
                    assert forall|q: K::V| self.has(q) implies self.get_spec(q) == old(
                        self,
                    ).as_map().insert(k@, v)[q] by {
                        let j = self.key_seq().index_of(q);
                        assert(self.key_seq().contains(q));
                        assert(self.key_seq()[j] == q);
                        if q != k@ {
                            assert(j != i);
                        }
                    }
                    assert(self.as_map() =~= old(self).as_map().insert(k@, v));
                }
            },
            None => {
                let ghost kv = k@;
                self.keys.push(k);
                self.vals.push(v);
                proof {
                    let old_keys = old(self).key_seq();
                    assert(self.key_seq() =~= old_keys.push(kv));
                    assert(self.val_seq() =~= old(self).val_seq().push(v));
                    assert forall|a: int, b: int|
                        0 <= a < b < self.key_seq().len() implies self.key_seq()[a]
                        != self.key_seq()[b] by {
                        if b == old_keys.len() {
                            assert(old_keys.contains(old_keys[a]));
                        }
                    }
                    let n = old_keys.len() as int;
                    self.lemma_index(n);
                    assert forall|q: K::V| self.has(q) implies self.get_spec(q) == old(
                        self,
                    ).as_map().insert(kv, v)[q] by {
                        let j = self.key_seq().index_of(q);
                        assert(self.key_seq().contains(q));
                        assert(self.key_seq()[j] == q);
                        if q != kv {
                            assert(j < n);
                            old(self).lemma_index(j);
                        }
                    }
                    assert forall|q: K::V| old(self).as_map().insert(kv, v).contains_key(q)
                        implies self.has(q) by {
                        if q != kv {
                            let j = old_keys.index_of(q);
                            assert(old_keys.contains(q));
                            assert(self.key_seq()[j] == q);
                        } else {
                            assert(self.key_seq()[n] == kv);
                        }
                    }
                    assert(self.as_map() =~= old(self).as_map().insert(kv, v));
                }
            },
        }
    }

    /// Remove `k` if present, returning its value; the other keys keep their order.
    pub fn remove(&mut self, k: &K) -> (r: Option<V>)
        requires
            old(self).wf(),
        ensures
            final(self).wf(),
            final(self).as_map() == old(self).as_map().remove(k@),
            match r {
                Some(v) => old(self).as_map().contains_key(k@) && v == old(self).as_map()[k@]
                    && final(self).key_seq() == old(self).key_seq().remove(old(self).key_seq().index_of(k@))
                    && final(self).val_seq() == old(self).val_seq().remove(old(self).key_seq().index_of(k@)),
                None => !old(self).as_map().contains_key(k@) && final(self).key_seq() == old(
                    self,
                ).key_seq() && final(self).val_seq() == old(self).val_seq(),
            },
    {
        match self.find(k) {
            Some(i) => {
                proof {
                    old(self).lemma_index(i as int);
                }
                let ghost old_keys = self.key_seq();
                self.keys.remove(i);
                let v = self.vals.remove(i);
                proof {
                    assert(self.key_seq() =~= old_keys.remove(i as int));
                    assert forall|a: int, b: int|
                        0 <= a < b < self.key_seq().len() implies self.key_seq()[a]
                        != self.key_seq()[b] by {
                        let a2 = if a < i { a } else { a + 1 };
                        let b2 = if b < i { b } else { b + 1 };
                        assert(self.key_seq()[a] == old_keys[a2]);
                        assert(self.key_seq()[b] == old_keys[b2]);
                    }
                    assert forall|q: K::V| self.has(q) implies self.get_spec(q) == old(
                        self,
                    ).as_map().remove(k@)[q] && q != k@ && old(self).has(q) by {
                        let j = self.key_seq().index_of(q);
                        assert(self.key_seq().contains(q));
                        assert(self.key_seq()[j] == q);
                        let j2 = if j < i { j } else { j + 1 };
                        assert(old_keys[j2] == q);
                        old(self).lemma_index(j2);
                    }
                    assert forall|q: K::V| old(self).as_map().remove(k@).contains_key(q)
                        implies self.has(q) by {
                        let j = old_keys.index_of(q);
                        assert(old_keys.contains(q));
                        assert(old_keys[j] == q);
                        assert(j != i);
                        let j2 = if j < i { j } else { j - 1 };
                        assert(self.key_seq()[j2] == q);
                    }
                    assert(self.as_map() =~= old(self).as_map().remove(k@));
                }
                Some(v)
            },
            None => {
                assert(self.as_map() =~= old(self).as_map().remove(k@));
                None
            },
        }
    }

    /// Take the value of `k` out, with the position it had, for `insert_at` to put back.
    pub fn take(&mut self, k: &K) -> (r: Option<(usize, V)>)
        requires
            old(self).wf(),
        ensures
            final(self).wf(),
            r is None <==> !old(self).has(k@),
            r is None ==> *final(self) == *old(self),
            r matches Some((i, v)) ==> {
                &&& i < old(self).key_seq().len()
                &&& i == old(self).key_seq().index_of(k@)
                &&& old(self).key_seq()[i as int] == k@
                &&& v == old(self).as_map()[k@]
                &&& v == old(self).val_seq()[i as int]
                &&& final(self).key_seq() == old(self).key_seq().remove(i as int)
                &&& final(self).val_seq() == old(self).val_seq().remove(i as int)
                &&& final(self).as_map() == old(self).as_map().remove(k@)
                &&& !final(self).has(k@)
                &&& i <= final(self).key_seq().len()
            },
    {
        match self.find(k) {
            Some(i) => {
                proof {
                    self.lemma_index(i as int);
                }
                match self.remove(k) {
                    Some(v) => {
                        assert(!self.as_map().contains_key(k@));
                        Some((i, v))
                    },
                    None => {
                        assert(false);
                        None
                    },
                }
            },
            None => None,
        }
    }

    /// Put the absent key `k` with `v` back at position `i`, as `remove` took it out.
    pub fn insert_at(&mut self, i: usize, k: K, v: V)
        requires
            old(self).wf(),
            !old(self).has(k@),
            i <= old(self).key_seq().len(),
        ensures
            final(self).wf(),
            final(self).key_seq() == old(self).key_seq().insert(i as int, k@),
            final(self).val_seq() == old(self).val_seq().insert(i as int, v),
            final(self).as_map() == old(self).as_map().insert(k@, v),
    {
        let ghost ks = self.key_seq();
        let ghost kv = k@;
        self.keys.insert(i, k);
        self.vals.insert(i, v);
        proof {
            assert(self.key_seq() =~= ks.insert(i as int, kv));
            assert forall|a: int, b: int| 0 <= a < b < self.key_seq().len() implies self.key_seq()[a]
                != self.key_seq()[b] by {
                let a2 = if a < i { a } else { a - 1 };
                let b2 = if b < i { b } else { b - 1 };
                if a == i {
                    assert(ks[b2] != kv) by {
                        assert(ks.contains(ks[b2]));
                    }
                } else if b == i {
                    assert(ks[a2] != kv) by {
                        assert(ks.contains(ks[a2]));
                    }
                } else {
                    assert(ks[a2] != ks[b2]);
                }
            }
            assert forall|q: K::V| #[trigger] old(self).as_map().insert(kv, v).contains_key(q) implies self.has(q) by {
                if q == kv {
                    assert(self.key_seq()[i as int] == kv);
                } else {
                    let j = ks.index_of(q);
                    assert(ks.contains(q));
                    assert(ks[j] == q);
                    let j2 = if j < i { j } else { j + 1 };
                    assert(self.key_seq()[j2] == q);
                }
            }
            assert forall|q: K::V| self.has(q) implies old(self).as_map().insert(kv, v).contains_key(q)
                && self.get_spec(q) == old(self).as_map().insert(kv, v)[q] by {
                let j = self.key_seq().index_of(q);
                assert(self.key_seq().contains(q));
                assert(self.key_seq()[j] == q);
                self.lemma_index(j);
                if q != kv {
                    assert(j != i);
                    let j2 = if j < i { j } else { j - 1 };
                    assert(ks[j2] == q);
                    old(self).lemma_index(j2);
                }
            }
            assert(self.as_map() =~= old(self).as_map().insert(kv, v));
        }
    }
}

impl<K: MapKey, V: Copy> KeyedMap<K, V> {
    /// The value of `k`, if present, by copy.
    pub fn get_copy(&self, k: &K) -> (r: Option<V>)
        requires
            self.wf(),
        ensures
            r == (if self.as_map().contains_key(k@) {
                Some(self.as_map()[k@])
            } else {
                None
            }),
    {
        match self.get(k) {
            Some(v) => Some(*v),
            None => None,
        }
    }

    /// A copy of the map, with the same keys in the same order.
    pub fn duplicate(&self) -> (r: Self)
        requires
            self.wf(),
        ensures
            r.wf(),
            r.key_seq() == self.key_seq(),
            r.val_seq() == self.val_seq(),
            r.as_map() == self.as_map(),
    {
        let mut keys: Vec<K> = Vec::new();
        let n = self.keys.len();
        for i in 0..n
            invariant
                n == self.keys@.len(),
                keys@.len() == i,
                forall|j: int| 0 <= j < i ==> #[trigger] keys@[j]@ == self.keys@[j]@,
        {
            keys.push(self.keys[i].key_clone());
        }
        let vals = self.values();
        let r = KeyedMap { keys, vals };
        assert(r.key_seq() =~= self.key_seq());
        r
    }

    /// All values, in key-insertion order.
    pub fn values(&self) -> (r: Vec<V>)
        requires
            self.wf(),
        ensures
            r@ == self.val_seq(),
    {
        let mut out: Vec<V> = Vec::new();
        let n = self.vals.len();
        for i in 0..n
            invariant
                n == self.vals@.len(),
                out@ == self.vals@.subrange(0, i as int),
        {
            out.push(self.vals[i]);
            assert(out@ =~= self.vals@.subrange(0, i + 1));
        }
        assert(out@ =~= self.vals@);
        out
    }
}

} // verus!
