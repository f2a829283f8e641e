//! A keyed store in the shape of a runtime storage map.
//!
//! Entries are kept in a vector with pairwise distinct keys; the abstract
//! value of a store is the finite map from keys to values.
use vstd::prelude::*;

verus! {

/// Keys that can be compared at run time with the meaning of spec equality.
pub trait StorageKey: Sized {
    fn same_key(&self, other: &Self) -> (r: bool)
        ensures
            r == (*self == *other),
    ;
}

impl<const N: usize> StorageKey for [u8; N] {
    fn same_key(&self, other: &Self) -> (r: bool) {
        let mut i: usize = 0;
        while i < N
            invariant
                i <= N,
                forall|j: int| 0 <= j < i ==> self[j] == other[j],
            decreases N - i,
        {
            if self[i] != other[i] {
                return false;
            }
            i = i + 1;
        }
        proof {
            broadcast use vstd::array::group_array_axioms;

            assert(*self =~= *other);
        }
        true
    }
}

impl<A: StorageKey, B: StorageKey> StorageKey for (A, B) {
    fn same_key(&self, other: &Self) -> (r: bool) {
        self.0.same_key(&other.0) && self.1.same_key(&other.1)
    }
}

/// `entries` lists `m`: its keys are distinct, each stands with its value in
/// `m`, and every key of `m` stands in it.
pub open spec fn lists<K, V>(entries: Seq<(K, V)>, m: Map<K, V>) -> bool {
    &&& forall|i: int, j: int|
        0 <= i < j < entries.len() ==> #[trigger] entries[i].0 != #[trigger] entries[j].0
    &&& forall|i: int|
        0 <= i < entries.len() ==> {
            &&& m.contains_key(#[trigger] entries[i].0)
            &&& m[entries[i].0] == entries[i].1
        }
    &&& forall|k: K|
        #[trigger] m.contains_key(k) ==> exists|i: int|
            0 <= i < entries.len() && #[trigger] entries[i].0 == k
}

/// `m` with the pairs of `pairs` inserted in order, so that a later pair
/// wins over an earlier one with the same key.
pub open spec fn insert_all<K, V>(m: Map<K, V>, pairs: Seq<(K, V)>) -> Map<K, V>
    decreases pairs.len(),
{
    if pairs.len() == 0 {
        m
    } else {
        insert_all(m, pairs.drop_last()).insert(pairs.last().0, pairs.last().1)
    }
}

/// Inserting `pairs` in order into `m` holds a key exactly when `m` or some
/// pair holds it; the value of a key is that of the last pair with that key,
/// or its value in `m` when no pair has it.
pub proof fn lemma_insert_all_lookup<K, V>(m: Map<K, V>, pairs: Seq<(K, V)>, k: K)
    ensures
        insert_all(m, pairs).contains_key(k) <==> (m.contains_key(k) || exists|i: int|
            0 <= i < pairs.len() && #[trigger] pairs[i].0 == k),
        forall|j: int|
            0 <= j < pairs.len() && #[trigger] pairs[j].0 == k && (forall|i: int|
                j < i < pairs.len() ==> #[trigger] pairs[i].0 != k) ==> insert_all(m, pairs)[k]
                == pairs[j].1,
        (forall|i: int| 0 <= i < pairs.len() ==> #[trigger] pairs[i].0 != k) ==> insert_all(
            m,
            pairs,
        )[k] == m[k],
    decreases pairs.len(),
{
    if pairs.len() > 0 {
        let front = pairs.drop_last();
        lemma_insert_all_lookup(m, front, k);
        assert forall|i: int| 0 <= i < front.len() implies #[trigger] front[i] == pairs[i] by {}
        if pairs.last().0 != k {
            if exists|i: int| 0 <= i < pairs.len() && #[trigger] pairs[i].0 == k {
                let i = choose|i: int| 0 <= i < pairs.len() && #[trigger] pairs[i].0 == k;
                assert(front[i].0 == k);
            }
            assert forall|j: int|
                0 <= j < pairs.len() && #[trigger] pairs[j].0 == k && (forall|i: int|
                    j < i < pairs.len() ==> #[trigger] pairs[i].0 != k) implies insert_all(
                m,
                pairs,
            )[k] == pairs[j].1 by {
                assert(front[j].0 == k);
                assert forall|i: int| j < i < front.len() implies #[trigger] front[i].0 != k by {
                    assert(pairs[i].0 != k);
                }
            }
        } else {
            assert(pairs[pairs.len() - 1].0 == k);
            assert forall|j: int|
                0 <= j < pairs.len() && #[trigger] pairs[j].0 == k && (forall|i: int|
                    j < i < pairs.len() ==> #[trigger] pairs[i].0 != k) implies insert_all(
                m,
                pairs,
            )[k] == pairs[j].1 by {
                if j < pairs.len() - 1 {
                    assert(pairs[pairs.len() - 1].0 != k);
                }
            }
        }
    }
}

/// A finite map held as a vector of entries with distinct keys.
#[verifier::reject_recursive_types(K)]
pub struct StorageMap<K, V> {
    entries: Vec<(K, V)>,
    model: Ghost<Map<K, V>>,
}

impl<K, V> View for StorageMap<K, V> {
    type V = Map<K, V>;

    closed spec fn view(&self) -> Map<K, V> {
        self.model@
    }
}

impl<K: StorageKey + Copy, V: Copy> StorageMap<K, V> {
    /// The entries have distinct keys and list the abstract map.
    pub closed spec fn wf(&self) -> bool {
        lists(self.entries@, self.model@)
    }

    /// An empty store.
    pub fn new() -> (r: Self)
        ensures
            r.wf(),
            r@ == Map::<K, V>::empty(),
    {
        StorageMap { entries: Vec::new(), model: Ghost(Map::empty()) }
    }

    /// The store holding `pairs`, inserted in order.
    pub fn from_entries(pairs: &Vec<(K, V)>) -> (r: Self)
        ensures
            r.wf(),
            r@ == insert_all(Map::<K, V>::empty(), pairs@),
    {
        let mut r = Self::new();
        let mut i: usize = 0;
        while i < pairs.len()
            invariant
                i <= pairs@.len(),
                r.wf(),
                r@ == insert_all(Map::<K, V>::empty(), pairs@.take(i as int)),
            decreases pairs@.len() - i,
        {
            let (k, v) = pairs[i];
            r.insert(k, v);
            assert(pairs@.take(i + 1).drop_last() =~= pairs@.take(i as int));
            i = i + 1;
        }
        assert(pairs@.take(pairs@.len() as int) =~= pairs@);
        r
    }

    /// The entries of the store, each key once.
    pub fn entries(&self) -> (r: Vec<(K, V)>)
        requires
            self.wf(),
        ensures
            lists(r@, self@),
    {
        let mut r: Vec<(K, V)> = Vec::new();
        let mut i: usize = 0;
        while i < self.entries.len()
            invariant
                i <= self.entries@.len(),
                r@ == self.entries@.take(i as int),
            decreases self.entries@.len() - i,
        {
            r.push(self.entries[i]);
            assert(r@ =~= self.entries@.take(i + 1));
            i = i + 1;
        }
        assert(r@ =~= self.entries@);
        r
    }

    /// The position of the entry with key `key`, if there is one.
    fn position(&self, key: &K) -> (r: Option<usize>)
        requires
            self.wf(),
        ensures
            match r {
                Some(i) => i < self.entries@.len() && self.entries@[i as int].0 == *key,
                None => !self@.contains_key(*key),
            },
    {
        let mut i: usize = 0;
        while i < self.entries.len()
            invariant
                self.wf(),
                i <= self.entries@.len(),
                forall|j: int| 0 <= j < i ==> self.entries@[j].0 != *key,
            decreases self.entries@.len() - i,
        {
            if self.entries[i].0.same_key(key) {
                return Some(i);
            }
            i = i + 1;
        }
        None
    }

    /// Whether the store holds an entry for `key`.
    pub fn contains_key(&self, key: &K) -> (r: bool)
        requires
            self.wf(),
        ensures
            r == self@.contains_key(*key),
    {
        match self.position(key) {
            Some(_) => true,
            None => false,
        }
    }

    /// The value stored under `key`, if any.
    pub fn get(&self, key: &K) -> (r: Option<V>)
        requires
            self.wf(),
        ensures
            r == (if self@.contains_key(*key) {
                Some(self@[*key])
            } else {
                None::<V>
            }),
    {
        match self.position(key) {
            Some(i) => Some(self.entries[i].1),
            None => None,
        }
    }

    /// Stores `value` under `key`, replacing any earlier value.
    pub fn insert(&mut self, key: K, value: V)
        requires
            old(self).wf(),
        ensures
            final(self).wf(),
            final(self)@ == old(self)@.insert(key, value),
    {
        let ghost old_entries = self.entries@;
        let ghost new_model = self.model@.insert(key, value);
        match self.position(&key) {
            Some(i) => {
                self.entries.set(i, (key, value));
                self.model = Ghost(new_model);
                assert forall|k: K| #[trigger] self.model@.contains_key(k) implies exists|j: int|
                    0 <= j < self.entries@.len() && #[trigger] self.entries@[j].0 == k by {
                    if k == key {
                        assert(self.entries@[i as int].0 == k);
                    } else {
                        let j = choose|j: int|
                            0 <= j < old_entries.len() && #[trigger] old_entries[j].0 == k;
                        assert(self.entries@[j].0 == k);
                    }
                }
            },
            None => {
                self.entries.push((key, value));
                self.model = Ghost(new_model);
                assert forall|k: K| #[trigger] self.model@.contains_key(k) implies exists|j: int|
                    0 <= j < self.entries@.len() && #[trigger] self.entries@[j].0 == k by {
                    if k == key {
                        assert(self.entries@[old_entries.len() as int].0 == k);
                    } else {
                        let j = choose|j: int|
                            0 <= j < old_entries.len() && #[trigger] old_entries[j].0 == k;
                        assert(self.entries@[j].0 == k);
                    }
                }
            },
        }
    }

    /// Removes the entry for `key`, if there is one.
    pub fn remove(&mut self, key: &K)
        requires
            old(self).wf(),
        ensures
            final(self).wf(),
            final(self)@ == old(self)@.remove(*key),
    {
        let ghost old_entries = self.entries@;
        let ghost new_model = self.model@.remove(*key);
        match self.position(key) {
            Some(i) => {
                self.entries.remove(i);
                self.model = Ghost(new_model);
                assert forall|k: K| #[trigger] self.model@.contains_key(k) implies exists|j: int|
                    0 <= j < self.entries@.len() && #[trigger] self.entries@[j].0 == k by {
                    let j = choose|j: int|
                        0 <= j < old_entries.len() && #[trigger] old_entries[j].0 == k;
                    if j < i {
                        assert(self.entries@[j].0 == k);
                    } else {
                        assert(self.entries@[j - 1].0 == k);
                    }
                }
            },
            None => {
                assert(new_model =~= self.model@);
            },
        }
    }
}

} // verus!
