//! Keyed storage: a small insertion-ordered map whose contents are modelled as a
//! mathematical `Map` together with the sequence of its keys.

use vstd::prelude::*;

verus! {

/// A type that can serve as a storage key: its executable equality test agrees
/// with mathematical equality.
pub trait StorageKey: Sized {
    fn key_eq(&self, other: &Self) -> (r: bool)
        ensures
            r == (*self == *other),
    ;
}

impl StorageKey for u32 {
    fn key_eq(&self, other: &Self) -> (r: bool) {
        *self == *other
    }
}

impl StorageKey for u64 {
    fn key_eq(&self, other: &Self) -> (r: bool) {
        *self == *other
    }
}

impl StorageKey for (u32, u32) {
    fn key_eq(&self, other: &Self) -> (r: bool) {
        self.0 == other.0 && self.1 == other.1
    }
}

/// Compares two byte arrays of the same length.
pub fn bytes_eq<const N: usize>(a: &[u8; N], b: &[u8; N]) -> (r: bool)
    ensures
        r == (*a == *b),
{
    let mut i: usize = 0;
    while i < N
        invariant
            i <= N,
            forall|j: int| 0 <= j < i ==> a[j] == b[j],
        decreases N - i,
    {
        if a[i] != b[i] {
            return false;
        }
        i += 1;
    }
    assert(*a =~= *b);
    true
}

/// A map from keys to values that remembers the order in which keys were first
/// inserted.
pub struct StorageMap<K, V> {
    keys: Vec<K>,
    values: Vec<V>,
}

impl<K, V> View for StorageMap<K, V> {
    type V = Map<K, V>;

    closed spec fn view(&self) -> Map<K, V> {
        Map::new(
            |k: K| self.keys@.contains(k),
            |k: K| self.values@[self.keys@.index_of(k)],
        )
    }
}

impl<K, V> StorageMap<K, V> {
    /// The keys held, in the order of their first insertion.
    pub closed spec fn keys(&self) -> Seq<K> {
        self.keys@
    }

    /// Each key is held once and has exactly one value.
    pub closed spec fn wf(&self) -> bool {
        &&& self.keys@.len() == self.values@.len()
        &&& self.keys@.no_duplicates()
    }

    /// The keys of a well-formed map are distinct and are exactly the domain of its view.
    pub proof fn lemma_keys(&self)
        requires
            self.wf(),
        ensures
            self.keys().no_duplicates(),
            self@.dom().finite(),
            self@.dom() == self.keys().to_set(),
            forall|k: K| self.keys().contains(k) <==> #[trigger] self@.contains_key(k),
    {
        assert(self@.dom() =~= self.keys@.to_set());
        vstd::seq_lib::seq_to_set_is_finite(self.keys@);
    }

    proof fn lemma_value_at(&self, i: int)
        requires
            self.wf(),
            0 <= i < self.keys@.len(),
        ensures
            self@.contains_key(self.keys@[i]),
            self@[self.keys@[i]] == self.values@[i],
            self.keys@.index_of(self.keys@[i]) == i,
    {
        let k = self.keys@[i];
        assert(self.keys@.contains(k));
        let j = self.keys@.index_of(k);
        assert(0 <= j < self.keys@.len() && self.keys@[j] == k);
    }
}

impl<K: StorageKey, V> StorageMap<K, V> {
    /// An empty map.
    pub fn new() -> (r: Self)
        ensures
            r.wf(),
            r@ == Map::<K, V>::empty(),
            r.keys() == Seq::<K>::empty(),
    {
        let r = StorageMap { keys: Vec::new(), values: Vec::new() };
        assert(r@ =~= Map::<K, V>::empty());
        r
    }

    /// The number of keys held.
    pub fn len(&self) -> (n: usize)
        requires
            self.wf(),
        ensures
            n == self.keys().len(),
            n == self@.dom().len(),
    {
        proof {
            self.lemma_keys();
            self.keys@.unique_seq_to_set();
        }
        self.keys.len()
    }

    fn position(&self, key: &K) -> (r: Option<usize>)
        requires
            self.wf(),
        ensures
            match r {
                Some(i) => i < self.keys@.len() && self.keys@[i as int] == *key,
                None => !self.keys@.contains(*key),
            },
    {
        let mut i: usize = 0;
        while i < self.keys.len()
            invariant
                i <= self.keys@.len(),
                forall|j: int| 0 <= j < i ==> self.keys@[j] != *key,
            decreases self.keys@.len() - i,
        {
            if self.keys[i].key_eq(key) {
                return Some(i);
            }
            i += 1;
        }
        None
    }

    /// Whether `key` has a value.
    pub fn contains_key(&self, key: &K) -> (r: bool)
        requires
            self.wf(),
        ensures
            r == self@.contains_key(*key),
    {
        self.position(key).is_some()
    }

    /// The value stored under `key`, if any.
    pub fn get(&self, key: &K) -> (r: Option<&V>)
        requires
            self.wf(),
        ensures
            match r {
                Some(v) => self@.contains_key(*key) && *v == self@[*key],
                None => !self@.contains_key(*key),
            },
    {
        match self.position(key) {
            Some(i) => {
                proof {
                    self.lemma_value_at(i as int);
                }
                Some(&self.values[i])
            },
            None => None,
        }
    }

    /// The key at position `i` of the insertion order, with its value.
    pub fn entry_at(&self, i: usize) -> (r: (&K, &V))
        requires
            self.wf(),
            i < self.keys().len(),
        ensures
            *r.0 == self.keys()[i as int],
            self@.contains_key(*r.0),
            *r.1 == self@[*r.0],
    {
        proof {
            self.lemma_value_at(i as int);
        }
        (&self.keys[i], &self.values[i])
    }

    /// Stores `value` under `key`. A key already held keeps its place in the
    /// order; a new key goes to the end.
    pub fn insert(&mut self, key: K, value: V)
        requires
            old(self).wf(),
        ensures
            final(self).wf(),
            final(self)@ == old(self)@.insert(key, value),
            final(self).keys() == if old(self)@.contains_key(key) {
                old(self).keys()
            } else {
                old(self).keys().push(key)
            },
    {
        let ghost before = *self;
        match self.position(&key) {
            Some(i) => {
                self.values.set(i, value);
                proof {
                    assert forall|k: K| #[trigger] self@.contains_key(k) implies self@[k]
                        == before@.insert(key, value)[k] by {
                        let j = self.keys@.index_of(k);
                        before.lemma_value_at(j);
                    }
                    assert(self@ =~= before@.insert(key, value));
                }
            },
            None => {
                self.keys.push(key);
                self.values.push(value);
                proof {
                    let n = before.keys@.len() as int;
                    assert(self.keys@.no_duplicates()) by {
                        assert forall|a: int, b: int|
                            0 <= a < self.keys@.len() && 0 <= b < self.keys@.len() && a
                                != b implies self.keys@[a] != self.keys@[b] by {
                            if a == n {
                                assert(before.keys@[b] == self.keys@[b]);
                            } else if b == n {
                                assert(before.keys@[a] == self.keys@[a]);
                            }
                        }
                    }
                    assert forall|k: K| #[trigger]
                        self@.contains_key(k) <==> before@.insert(key, value).contains_key(
                            k,
                        ) by {
                        if before.keys@.contains(k) {
                            let j = before.keys@.index_of(k);
                            assert(self.keys@[j] == k);
                        }
                        if k == key {
                            assert(self.keys@[n] == k);
                        }
                        if self.keys@.contains(k) {
                            let j = self.keys@.index_of(k);
                            if j < n {
                                assert(before.keys@[j] == k);
                            }
                        }
                    }
                    assert forall|k: K| #[trigger] self@.contains_key(k) implies self@[k]
                        == before@.insert(key, value)[k] by {
                        let j = self.keys@.index_of(k);
                        self.lemma_value_at(j);
                        if j < n {
                            assert(before.keys@[j] == k);
                            before.lemma_value_at(j);
                        }
                    }
                    assert(self@ =~= before@.insert(key, value));
                }
            },
        }
    }

    /// Takes the value stored under `key` out of the map, if there is one.
    pub fn remove(&mut self, key: &K) -> (r: Option<V>)
        requires
            old(self).wf(),
        ensures
            final(self).wf(),
            final(self)@ == old(self)@.remove(*key),
            r == if old(self)@.contains_key(*key) {
                Some(old(self)@[*key])
            } else {
                None::<V>
            },
            final(self).keys() == if old(self)@.contains_key(*key) {
                old(self).keys().remove(old(self).keys().index_of(*key))
            } else {
                old(self).keys()
            },
    {
        let ghost before = *self;
        match self.position(key) {
            Some(i) => {
                proof {
                    before.lemma_value_at(i as int);
                }
                let _ = self.keys.remove(i);
                let value = self.values.remove(i);
                proof {
                    let n = before.keys@.len() as int;
                    assert forall|a: int| 0 <= a < self.keys@.len() implies #[trigger] self.keys@[a]
                        == before.keys@[if a < i { a } else { a + 1 }] by {}
                    assert(self.keys@.no_duplicates());
                    assert forall|k: K| #[trigger]
                        self@.contains_key(k) <==> before@.remove(*key).contains_key(k) by {
                        if self.keys@.contains(k) {
                            let j = self.keys@.index_of(k);
                            let jj = if j < i { j } else { j + 1 };
                            assert(before.keys@[jj] == k);
                        }
                        if before.keys@.contains(k) && k != *key {
                            let j = before.keys@.index_of(k);
                            let jj = if j < i { j } else { j - 1 };
                            assert(self.keys@[jj] == k);
                        }
                    }
                    assert forall|k: K| #[trigger] self@.contains_key(k) implies self@[k]
                        == before@.remove(*key)[k] by {
                        let j = self.keys@.index_of(k);
                        self.lemma_value_at(j);
                        let jj = if j < i { j } else { j + 1 };
                        assert(before.keys@[jj] == k);
                        before.lemma_value_at(jj);
                    }
                    assert(self@ =~= before@.remove(*key));
                }
                Some(value)
            },
            None => {
                assert(self@ =~= before@.remove(*key));
                None
            },
        }
    }
}

/// The sum of the values that `m` holds for those of `keys` that `selected` picks.
pub open spec fn sum_values<K>(keys: Seq<K>, m: Map<K, u128>, selected: spec_fn(K) -> bool) -> nat
    decreases keys.len(),
{
    if keys.len() == 0 {
        0
    } else {
        sum_values(keys.drop_last(), m, selected) + if selected(keys.last()) {
            m[keys.last()] as nat
        } else {
            0
        }
    }
}

/// Changing the value of a key that is not among `keys` leaves the sum as it was.
pub proof fn lemma_sum_values_other_key<K>(
    keys: Seq<K>,
    m: Map<K, u128>,
    selected: spec_fn(K) -> bool,
    key: K,
    value: u128,
)
    requires
        !keys.contains(key) || !selected(key),
    ensures
        sum_values(keys, m.insert(key, value), selected) == sum_values(keys, m, selected),
    decreases keys.len(),
{
    if keys.len() > 0 {
        let front = keys.drop_last();
        assert forall|k: K| front.contains(k) implies keys.contains(k) by {
            let i = front.index_of(k);
            assert(keys[i] == k);
        }
        lemma_sum_values_other_key(front, m, selected, key, value);
        if keys.last() == key {
            assert(keys[keys.len() - 1] == key);
        }
    }
}

/// Changing the value of one of `keys` changes the sum by the difference, where
/// that key is selected.
pub proof fn lemma_sum_values_update<K>(
    keys: Seq<K>,
    m: Map<K, u128>,
    selected: spec_fn(K) -> bool,
    key: K,
    value: u128,
)
    requires
        keys.no_duplicates(),
        keys.contains(key),
        selected(key),
    ensures
        sum_values(keys, m, selected) >= m[key],
        sum_values(keys, m.insert(key, value), selected) == sum_values(keys, m, selected) - m[key]
            + value,
    decreases keys.len(),
{
    let front = keys.drop_last();
    let n = keys.len() - 1;
    if keys.last() == key {
        assert(!front.contains(key)) by {
            if front.contains(key) {
                let i = front.index_of(key);
                assert(keys[i] == key && keys[n] == key);
            }
        }
        lemma_sum_values_other_key(front, m, selected, key, value);
    } else {
        let i = keys.index_of(key);
        assert(front[i] == key);
        assert(front.no_duplicates());
        lemma_sum_values_update(front, m, selected, key, value);
    }
}

/// The values of two different keys, both selected, are together no more than
/// the sum.
pub proof fn lemma_sum_values_two<K>(
    keys: Seq<K>,
    m: Map<K, u128>,
    selected: spec_fn(K) -> bool,
    one: K,
    other: K,
)
    requires
        keys.no_duplicates(),
        keys.contains(one),
        keys.contains(other),
        one != other,
        selected(one),
        selected(other),
    ensures
        m[one] + m[other] <= sum_values(keys, m, selected),
    decreases keys.len(),
{
    let front = keys.drop_last();
    let last = keys.last();
    assert(front.no_duplicates());
    assert forall|k: K| keys.contains(k) && k != last implies front.contains(k) by {
        let i = keys.index_of(k);
        assert(front[i] == k);
    }
    if last == one {
        lemma_sum_values_update(front, m, selected, other, m[other]);
    } else if last == other {
        lemma_sum_values_update(front, m, selected, one, m[one]);
    } else {
        lemma_sum_values_two(front, m, selected, one, other);
    }
}

/// A new key at the end of `keys` adds its value to the sum, where it is selected.
pub proof fn lemma_sum_values_push<K>(
    keys: Seq<K>,
    m: Map<K, u128>,
    selected: spec_fn(K) -> bool,
    key: K,
    value: u128,
)
    requires
        !keys.contains(key),
    ensures
        sum_values(keys.push(key), m.insert(key, value), selected) == sum_values(keys, m, selected)
            + if selected(key) {
            value as nat
        } else {
            0
        },
{
    assert(keys.push(key).drop_last() =~= keys);
    lemma_sum_values_other_key(keys, m, selected, key, value);
}

/// Taking one of `keys` away takes its value from the sum, where it is selected.
pub proof fn lemma_sum_values_remove<K>(
    keys: Seq<K>,
    m: Map<K, u128>,
    selected: spec_fn(K) -> bool,
    i: int,
)
    requires
        keys.no_duplicates(),
        0 <= i < keys.len(),
    ensures
        sum_values(keys.remove(i), m.remove(keys[i]), selected) + (if selected(keys[i]) {
            m[keys[i]] as nat
        } else {
            0
        }) == sum_values(keys, m, selected),
    decreases keys.len(),
{
    let n = keys.len() - 1;
    let front = keys.drop_last();
    if i == n {
        assert(keys.remove(i) =~= front);
        lemma_sum_values_without(front, m, selected, keys[i]);
    } else {
        assert(front.no_duplicates());
        assert(front[i] == keys[i]);
        lemma_sum_values_remove(front, m, selected, i);
        assert(keys.remove(i).drop_last() =~= front.remove(i));
        assert(keys.remove(i).last() == keys.last());
        assert(keys.last() != keys[i]);
    }
}

/// Removing a key that is not among `keys` leaves the sum as it was.
pub proof fn lemma_sum_values_without<K>(
    keys: Seq<K>,
    m: Map<K, u128>,
    selected: spec_fn(K) -> bool,
    key: K,
)
    requires
        keys.no_duplicates(),
        !keys.contains(key) || keys.last() == key,
    ensures
        sum_values(
            if keys.contains(key) {
                keys.drop_last()
            } else {
                keys
            },
            m.remove(key),
            selected,
        ) == sum_values(if keys.contains(key) {
            keys.drop_last()
        } else {
            keys
        }, m, selected),
    decreases keys.len(),
{
    let rest = if keys.contains(key) {
        keys.drop_last()
    } else {
        keys
    };
    assert(!rest.contains(key)) by {
        if rest.contains(key) {
            let j = rest.index_of(key);
            assert(keys[j] == key);
            if keys.contains(key) {
                assert(keys[keys.len() - 1] == key);
            }
        }
    }
    lemma_sum_values_absent_removed(rest, m, selected, key);
}

proof fn lemma_sum_values_absent_removed<K>(
    keys: Seq<K>,
    m: Map<K, u128>,
    selected: spec_fn(K) -> bool,
    key: K,
)
    requires
        !keys.contains(key),
    ensures
        sum_values(keys, m.remove(key), selected) == sum_values(keys, m, selected),
    decreases keys.len(),
{
    if keys.len() > 0 {
        let front = keys.drop_last();
        assert forall|k: K| front.contains(k) implies keys.contains(k) by {
            let i = front.index_of(k);
            assert(keys[i] == k);
        }
        lemma_sum_values_absent_removed(front, m, selected, key);
        assert(keys[keys.len() - 1] != key);
    }
}

} // verus!
