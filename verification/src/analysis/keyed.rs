//! A map that remembers the order in which its keys were first seen.
use vstd::prelude::*;

use std::collections::HashMap;

verus! {

broadcast use vstd::std_specs::hash::group_hash_axioms;

/// Values by key, in the order in which the keys were first inserted.
#[derive(Debug)]
pub struct KeyedList<V> {
    index: HashMap<u128, usize>,
    keys: Vec<u128>,
    values: Vec<V>,
}

/// No key occurs twice.
pub open spec fn distinct_keys(keys: Seq<u128>) -> bool {
    forall|i: int, j: int| 0 <= i < keys.len() && 0 <= j < keys.len() && i != j ==> keys[i] != keys[j]
}

/// The position of `k` among `keys`, if it occurs.
pub open spec fn position_of(keys: Seq<u128>, k: u128) -> Option<int> {
    if keys.contains(k) {
        Some(choose|i: int| 0 <= i < keys.len() && keys[i] == k)
    } else {
        None
    }
}

impl<V> KeyedList<V> {
    /// The keys, in order of insertion.
    pub closed spec fn keys(&self) -> Seq<u128> {
        self.keys@
    }

    /// The values, at the positions of their keys.
    pub closed spec fn values(&self) -> Seq<V> {
        self.values@
    }

    /// The index finds each key at its position.
    pub closed spec fn wf(&self) -> bool {
        &&& self.keys@.len() == self.values@.len()
        &&& distinct_keys(self.keys@)
        &&& forall|k: u128| #[trigger] self.index@.contains_key(k) <==> self.keys@.contains(k)
        &&& forall|i: int| 0 <= i < self.keys@.len() ==> #[trigger] self.index@[self.keys@[i]] == i
    }

    /// The value of `k`, if it has one.
    pub open spec fn lookup(&self, k: u128) -> Option<V> {
        match position_of(self.keys(), k) {
            Some(i) => Some(self.values()[i]),
            None => None,
        }
    }

    /// The value under each key.
    pub open spec fn map(&self) -> Map<u128, V> {
        Map::new(|k: u128| self.keys().contains(k), |k: u128| self.values()[self.keys().index_of(k)])
    }

    /// With distinct keys, the position of the key at `i` is `i`.
    pub proof fn lemma_index_of_key(&self, i: int)
        requires
            self.wf(),
            0 <= i < self.keys().len(),
        ensures
            self.keys().index_of(self.keys()[i]) == i,
            i < self.values().len(),
    {
        let k = self.keys()[i];
        assert(self.keys().contains(k));
        let j = self.keys().index_of(k);
        assert(0 <= j < self.keys().len() && self.keys()[j] == k);
    }

    /// No key occurs twice.
    pub proof fn lemma_keys_distinct(&self)
        requires
            self.wf(),
        ensures
            self.keys().no_duplicates(),
            self.keys().len() == self.values().len(),
    {
    }

    pub fn new() -> (r: Self)
        ensures
            r.wf(),
            r.map() == Map::<u128, V>::empty(),
            r.keys() == Seq::<u128>::empty(),
            r.values() == Seq::<V>::empty(),
    {
        let r = KeyedList { index: HashMap::new(), keys: Vec::new(), values: Vec::new() };
        assert(r.keys@ =~= Seq::<u128>::empty());
        assert(r.map() =~= Map::<u128, V>::empty());
        r
    }

    /// The value under `k`, if there is one.
    pub fn get(&self, k: u128) -> (r: Option<&V>)
        requires
            self.wf(),
        ensures
            r is Some <==> self.map().dom().contains(k),
            r matches Some(v) ==> *v == self.map()[k],
    {
        match self.position(k) {
            Some(i) => {
                proof {
                    self.lemma_index_of_key(i as int);
                }
                Some(self.value(i))
            },
            None => None,
        }
    }

    pub fn len(&self) -> (r: usize)
        requires
            self.wf(),
        ensures
            r == self.keys().len(),
            r == self.values().len(),
    {
        self.keys.len()
    }

    /// The position of `k`, if it has a value.
    pub fn position(&self, k: u128) -> (r: Option<usize>)
        requires
            self.wf(),
        ensures
            r is None <==> !self.keys().contains(k),
            r matches Some(i) ==> i < self.keys().len() && i < self.values().len() && self.keys()[i as int] == k
                && position_of(self.keys(), k) == Some(i as int),
    {
        match self.index.get(&k) {
            Some(i) => {
                proof {
                    let w = choose|j: int| 0 <= j < self.keys@.len() && self.keys@[j] == k;
                    assert(self.index@[self.keys@[w]] == w);
                }
                Some(*i)
            },
            None => None,
        }
    }

    /// The key at position `i`.
    pub fn key(&self, i: usize) -> (r: u128)
        requires
            self.wf(),
            i < self.keys().len(),
        ensures
            r == self.keys()[i as int],
            i < self.values().len(),
    {
        self.keys[i]
    }

    /// The value at position `i`.
    pub fn value(&self, i: usize) -> (r: &V)
        requires
            self.wf(),
            i < self.keys().len(),
        ensures
            *r == self.values()[i as int],
    {
        &self.values[i]
    }

    /// The value at position `i`, to change it.
    pub fn value_mut(&mut self, i: usize) -> (r: &mut V)
        requires
            old(self).wf(),
            i < old(self).keys().len(),
        ensures
            *r == old(self).values()[i as int],
            final(self).wf(),
            final(self).keys() == old(self).keys(),
            final(self).values() == old(self).values().update(i as int, *final(r)),
            final(self).map() == old(self).map().insert(old(self).keys()[i as int], *final(r)),
    {
        proof {
            self.lemma_index_of_key(i as int);
        }
        let r = &mut self.values[i];
        proof {
            let ghost fr = *final(r);
            let nv = old(self).values().update(i as int, fr);
            let ks = old(self).keys();
            let m2 = Map::new(|k: u128| ks.contains(k), |k: u128| nv[ks.index_of(k)]);
            assert forall|k: u128| #[trigger] m2.dom().contains(k) implies m2[k] == old(self).map().insert(ks[i as int], fr)[k] by {
                let j = ks.index_of(k);
                assert(0 <= j < ks.len() && ks[j] == k);
                if k == ks[i as int] {
                    assert(j == i);
                } else {
                    assert(j != i);
                }
            }
            assert(m2 =~= old(self).map().insert(ks[i as int], fr));
        }
        r
    }

    /// Adds `k` with the value `v`; `k` must have no value yet.
    pub fn push(&mut self, k: u128, v: V) -> (r: usize)
        requires
            old(self).wf(),
            !old(self).keys().contains(k),
        ensures
            final(self).wf(),
            r == old(self).keys().len(),
            r == old(self).values().len(),
            final(self).keys() == old(self).keys().push(k),
            final(self).values() == old(self).values().push(v),
            final(self).map() == old(self).map().insert(k, v),
    {
        let i = self.keys.len();
        self.index.insert(k, i);
        self.keys.push(k);
        self.values.push(v);
        proof {
            assert forall|kk: u128| #[trigger] self.index@.contains_key(kk) <==> self.keys@.contains(kk) by {
                if kk != k && self.keys@.contains(kk) {
                    let j = choose|j: int| 0 <= j < self.keys@.len() && self.keys@[j] == kk;
                    assert(old(self).keys@[j] == kk);
                }
                if kk != k && old(self).keys@.contains(kk) {
                    let j = choose|j: int| 0 <= j < old(self).keys@.len() && old(self).keys@[j] == kk;
                    assert(self.keys@[j] == kk);
                }
                if kk == k {
                    assert(self.keys@[i as int] == k);
                }
            }
            assert forall|a: int, b: int| 0 <= a < self.keys@.len() && 0 <= b < self.keys@.len() && a != b
                implies self.keys@[a] != self.keys@[b] by {
                if a == i {
                    assert(old(self).keys@.contains(self.keys@[b]) || b == i);
                }
                if b == i {
                    assert(old(self).keys@.contains(self.keys@[a]) || a == i);
                }
            }
            let ks = self.keys@;
            assert forall|kk: u128| #[trigger] self.map().dom().contains(kk) implies self.map()[kk] == old(self).map().insert(k, v)[kk] by {
                let j = ks.index_of(kk);
                assert(0 <= j < ks.len() && ks[j] == kk);
                if kk == k {
                    assert(ks[i as int] == k);
                    assert(j == i);
                } else {
                    assert(j != i);
                    assert(old(self).keys@[j] == kk);
                    old(self).lemma_index_of_key(j);
                }
            }
            assert forall|kk: u128| #[trigger] self.map().dom().contains(kk) <==> old(self).map().insert(k, v).dom().contains(kk) by {
                if kk != k && ks.contains(kk) {
                    let j = choose|j: int| 0 <= j < ks.len() && ks[j] == kk;
                    assert(old(self).keys@[j] == kk);
                }
                if old(self).keys@.contains(kk) {
                    let j = choose|j: int| 0 <= j < old(self).keys@.len() && old(self).keys@[j] == kk;
                    assert(ks[j] == kk);
                }
                if kk == k {
                    assert(ks[i as int] == k);
                }
            }
            assert(self.map() =~= old(self).map().insert(k, v));
        }
        i
    }

    /// Removes every value.
    pub fn clear(&mut self)
        ensures
            final(self).wf(),
            final(self).keys() == Seq::<u128>::empty(),
            final(self).values() == Seq::<V>::empty(),
            final(self).map() == Map::<u128, V>::empty(),
    {
        self.index.clear();
        self.keys.clear();
        self.values.clear();
        assert(self.keys@ =~= Seq::<u128>::empty());
        assert(self.map() =~= Map::<u128, V>::empty());
    }
}

/// The series of values of each key after `x` is appended to the series of `k`;
/// a new key starts a series of its own, after the others.
/// The keys and values once `k` holds `v`: in place when `k` is there, else at the end.
pub open spec fn keyed_set<V>(keys: Seq<u128>, values: Seq<V>, k: u128, v: V) -> (Seq<u128>, Seq<V>) {
    match position_of(keys, k) {
        Some(i) => (keys, values.update(i, v)),
        None => (keys.push(k), values.push(v)),
    }
}

impl<V> KeyedList<V> {
    /// Makes `k` hold `v`.
    pub fn set(&mut self, k: u128, v: V)
        requires
            old(self).wf(),
        ensures
            final(self).wf(),
            (final(self).keys(), final(self).values()) == keyed_set(old(self).keys(), old(self).values(), k, v),
            final(self).map() == old(self).map().insert(k, v),
    {
        match self.position(k) {
            Some(i) => {
                *self.value_mut(i) = v;
            },
            None => {
                self.push(k, v);
            },
        }
    }
}

pub open spec fn series_push<T>(keys: Seq<u128>, series: Seq<Seq<T>>, k: u128, x: T) -> (Seq<u128>, Seq<Seq<T>>) {
    match position_of(keys, k) {
        Some(i) => (keys, series.update(i, series[i].push(x))),
        None => (keys.push(k), series.push(seq![x])),
    }
}

/// The series of `k`: empty when `k` has none.
pub open spec fn series_of<T>(keys: Seq<u128>, series: Seq<Seq<T>>, k: u128) -> Seq<T> {
    match position_of(keys, k) {
        Some(i) => series[i],
        None => Seq::empty(),
    }
}

/// With distinct keys, the position of a key is the one index that holds it.
pub proof fn lemma_position_unique(keys: Seq<u128>, k: u128, i: int)
    requires
        keys.no_duplicates(),
        0 <= i < keys.len(),
        keys[i] == k,
    ensures
        position_of(keys, k) == Some(i),
{
    assert(keys.contains(k));
    let j = choose|j: int| 0 <= j < keys.len() && keys[j] == k;
    assert(0 <= j < keys.len() && keys[j] == k);
}

/// Pushing a value into the series of `k` appends it to that series and leaves the
/// series of every other key as it was; keys stay distinct.
pub proof fn lemma_series_push<T>(keys: Seq<u128>, series: Seq<Seq<T>>, k: u128, x: T)
    requires
        keys.no_duplicates(),
        keys.len() == series.len(),
    ensures
        series_push(keys, series, k, x).0.no_duplicates(),
        series_push(keys, series, k, x).0.len() == series_push(keys, series, k, x).1.len(),
        series_of(series_push(keys, series, k, x).0, series_push(keys, series, k, x).1, k) == series_of(keys, series, k).push(x),
        forall|j: u128| j != k ==> #[trigger] series_of(series_push(keys, series, k, x).0, series_push(keys, series, k, x).1, j)
            == series_of(keys, series, j),
{
    let (k2, s2) = series_push(keys, series, k, x);
    match position_of(keys, k) {
        Some(i) => {
            assert(0 <= i < keys.len() && keys[i] == k);
            assert forall|j: u128| j != k implies #[trigger] series_of(k2, s2, j) == series_of(keys, series, j) by {
                if keys.contains(j) {
                    let a = choose|a: int| 0 <= a < keys.len() && keys[a] == j;
                    lemma_position_unique(keys, j, a);
                    assert(a != i);
                }
            }
        },
        None => {
            assert(!keys.contains(k));
            assert forall|a: int, b: int| 0 <= a < k2.len() && 0 <= b < k2.len() && a != b implies k2[a] != k2[b] by {
                if a == keys.len() {
                    assert(!keys.contains(k2[b]) || k2[b] != k);
                } else if b == keys.len() {
                    assert(keys[a] != k) by {
                        assert(keys.contains(keys[a]));
                    }
                }
            }
            assert(k2.no_duplicates());
            lemma_position_unique(k2, k, keys.len() as int);
            assert forall|j: u128| j != k implies #[trigger] series_of(k2, s2, j) == series_of(keys, series, j) by {
                if keys.contains(j) {
                    let a = choose|a: int| 0 <= a < keys.len() && keys[a] == j;
                    lemma_position_unique(keys, j, a);
                    lemma_position_unique(k2, j, a);
                } else {
                    assert(!k2.contains(j)) by {
                        if k2.contains(j) {
                            let a = choose|a: int| 0 <= a < k2.len() && k2[a] == j;
                            if a < keys.len() {
                                assert(keys[a] == j);
                            }
                        }
                    }
                }
            }
        },
    }
}

impl<T> KeyedList<Vec<T>> {
    /// The series of each key, in the order of the keys.
    pub open spec fn series(&self) -> Seq<Seq<T>> {
        self.values().map_values(|v: Vec<T>| v@)
    }

    /// Appends `x` to the series of `k`.
    pub fn append(&mut self, k: u128, x: T)
        requires
            old(self).wf(),
        ensures
            final(self).wf(),
            (final(self).keys(), final(self).series()) == series_push(old(self).keys(), old(self).series(), k, x),
    {
        match self.position(k) {
            Some(i) => {
                self.value_mut(i).push(x);
                assert(self.series() =~= old(self).series().update(i as int, old(self).series()[i as int].push(x)));
            },
            None => {
                let mut v: Vec<T> = Vec::new();
                v.push(x);
                self.push(k, v);
                assert(self.series() =~= old(self).series().push(seq![x]));
            },
        }
    }
}

} // verus!
