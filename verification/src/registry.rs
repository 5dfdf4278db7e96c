//! A keyed collection that remembers the order in which keys first arrived.

use vstd::prelude::*;
use crate::text::str_eq;

verus! {

/// Entries under distinct string keys, kept in the order of first insertion.
///
/// Replacing the value under a key keeps that key's place; removing a key
/// closes the gap. Iterating by position is therefore deterministic.
pub struct Registry<V> {
    keys: Vec<String>,
    values: Vec<V>,
}

/// The views of a list of values, in order.
pub open spec fn view_all<T: View>(s: Seq<T>) -> Seq<T::V> {
    s.map_values(|t: T| t@)
}

/// The order of keys after `key` was stored: it keeps its place when it is
/// there already and goes to the end otherwise.
pub open spec fn order_with(order: Seq<Seq<char>>, key: Seq<char>) -> Seq<Seq<char>> {
    if order.contains(key) {
        order
    } else {
        order.push(key)
    }
}

/// The order of keys after `key` was taken out.
pub open spec fn order_without(order: Seq<Seq<char>>, key: Seq<char>) -> Seq<Seq<char>> {
    if order.contains(key) {
        order.remove(order.index_of(key))
    } else {
        order
    }
}

/// In a list without repeats, an element is found at its own position.
pub proof fn lemma_index_of_unique<A>(s: Seq<A>, i: int)
    requires
        s.no_duplicates(),
        0 <= i < s.len(),
    ensures
        s.index_of(s[i]) == i,
        s.contains(s[i]),
{
    let j = s.index_of(s[i]);
    assert(0 <= j < s.len() && s[j] == s[i]);
}

impl<V: View> View for Registry<V> {
    type V = Map<Seq<char>, V::V>;

    /// The registry as a map from key to the view of the value under it.
    open spec fn view(&self) -> Map<Seq<char>, V::V> {
        Map::new(|k: Seq<char>| self.contains(k), |k: Seq<char>| self.value_of(k)@)
    }
}

impl<V: View> Registry<V> {
    /// The keys, oldest first.
    pub closed spec fn keys(&self) -> Seq<Seq<char>> {
        self.keys@.map_values(|s: String| s@)
    }

    /// The values, each at the position of its key.
    pub closed spec fn values(&self) -> Seq<V> {
        self.values@
    }

    /// Every key has exactly one value and no key occurs twice.
    pub open spec fn wf(&self) -> bool {
        &&& self.keys().len() == self.values().len()
        &&& self.keys().no_duplicates()
    }

    /// The views of the values, each at the position of its key.
    pub open spec fn value_views(&self) -> Seq<V::V> {
        view_all(self.values())
    }

    /// Whether `k` is one of the keys.
    pub open spec fn contains(&self, k: Seq<char>) -> bool {
        self.keys().contains(k)
    }

    /// Position of `k` among the keys; meaningful only when `k` is present.
    pub open spec fn index_of(&self, k: Seq<char>) -> int {
        self.keys().index_of(k)
    }

    /// The value stored under `k`; meaningful only when `k` is present.
    pub open spec fn value_of(&self, k: Seq<char>) -> V {
        self.values()[self.index_of(k)]
    }

    /// The entry at position `i` is the one the map holds under the key at
    /// position `i`.
    pub proof fn lemma_entry(&self, i: int)
        requires
            self.wf(),
            0 <= i < self.keys().len(),
        ensures
            self.contains(self.keys()[i]),
            self.index_of(self.keys()[i]) == i,
            self.value_of(self.keys()[i]) == self.values()[i],
            self@.contains_key(self.keys()[i]),
            self@[self.keys()[i]] == self.values()[i]@,
    {
        lemma_index_of_unique(self.keys(), i);
    }

    /// A present key sits at a valid position.
    pub proof fn lemma_present(&self, k: Seq<char>)
        requires
            self.wf(),
            self.contains(k),
        ensures
            0 <= self.index_of(k) < self.keys().len(),
            self.keys()[self.index_of(k)] == k,
    {
    }

    /// A registry without entries.
    pub fn new() -> (r: Self)
        ensures
            r.wf(),
            r.keys() == Seq::<Seq<char>>::empty(),
            r.values() == Seq::<V>::empty(),
            r@ == Map::<Seq<char>, V::V>::empty(),
    {
        let r = Registry { keys: Vec::new(), values: Vec::new() };
        assert(r.keys() =~= Seq::<Seq<char>>::empty());
        assert(r@ =~= Map::<Seq<char>, V::V>::empty());
        r
    }

    /// The number of entries.
    pub fn len(&self) -> (n: usize)
        requires
            self.wf(),
        ensures
            n == self.keys().len(),
    {
        self.keys.len()
    }

    /// Where `key` sits, if it is present.
    pub fn position(&self, key: &str) -> (r: Option<usize>)
        requires
            self.wf(),
        ensures
            match r {
                Some(i) => self.contains(key@) && i == self.index_of(key@) && i < self.keys().len(),
                None => !self.contains(key@),
            },
    {
        let mut i: usize = 0;
        while i < self.keys.len()
            invariant
                self.wf(),
                i <= self.keys.len(),
                forall|j: int| 0 <= j < i ==> self.keys()[j] != key@,
            decreases self.keys.len() - i,
        {
            if str_eq(self.keys[i].as_str(), key) {
                proof {
                    assert(self.keys()[i as int] == key@);
                    lemma_index_of_unique(self.keys(), i as int);
                }
                return Some(i);
            }
            i += 1;
        }
        None
    }

    /// Whether something is stored under `key`.
    pub fn contains_key(&self, key: &str) -> (r: bool)
        requires
            self.wf(),
        ensures
            r == self.contains(key@),
            r == self@.contains_key(key@),
    {
        self.position(key).is_some()
    }

    /// The value stored under `key`.
    pub fn get(&self, key: &str) -> (r: Option<&V>)
        requires
            self.wf(),
        ensures
            match r {
                Some(v) => self.contains(key@) && *v == self.value_of(key@) && v@ == self@[key@],
                None => !self.contains(key@),
            },
    {
        match self.position(key) {
            Some(i) => Some(&self.values[i]),
            None => None,
        }
    }

    /// The key at position `i`.
    pub fn key_at(&self, i: usize) -> (r: &String)
        requires
            self.wf(),
            i < self.keys().len(),
        ensures
            r@ == self.keys()[i as int],
    {
        &self.keys[i]
    }

    /// The value at position `i`.
    pub fn value_at(&self, i: usize) -> (r: &V)
        requires
            self.wf(),
            i < self.keys().len(),
        ensures
            *r == self.values()[i as int],
            r@ == self@[self.keys()[i as int]],
    {
        proof {
            self.lemma_entry(i as int);
        }
        &self.values[i]
    }

    /// Stores `value` under `key`. A key that is already present keeps its
    /// position and gets the new value; the old one is handed back.
    pub fn insert(&mut self, key: String, value: V) -> (r: Option<V>)
        requires
            old(self).wf(),
        ensures
            final(self).wf(),
            final(self)@ == old(self)@.insert(key@, value@),
            final(self).keys() == order_with(old(self).keys(), key@),
            old(self).contains(key@) ==> {
                &&& r == Some(old(self).value_of(key@))
                &&& final(self).keys() == old(self).keys()
                &&& final(self).values() == old(self).values().update(
                    old(self).index_of(key@),
                    value,
                )
            },
            !old(self).contains(key@) ==> {
                &&& r is None
                &&& final(self).keys() == old(self).keys().push(key@)
                &&& final(self).values() == old(self).values().push(value)
            },
    {
        let ghost before = *self;
        match self.position(key.as_str()) {
            Some(i) => {
                let mut v = value;
                std::mem::swap(&mut self.values[i], &mut v);
                proof {
                    assert(self.keys() == before.keys());
                    assert forall|k: Seq<char>| #[trigger] self@.contains_key(k) implies self@[k]
                        == before@.insert(key@, value@)[k] by {
                        if k != key@ {
                            before.lemma_present(k);
                        }
                    }
                    assert(self@ =~= before@.insert(key@, value@));
                }
                Some(v)
            },
            None => {
                let ghost k0 = key@;
                self.keys.push(key);
                self.values.push(value);
                proof {
                    assert(self.keys() =~= before.keys().push(k0));
                    assert forall|a: int, b: int|
                        0 <= a < self.keys().len() && 0 <= b < self.keys().len() && a
                            != b implies self.keys()[a] != self.keys()[b] by {
                        if a < before.keys().len() {
                            assert(before.keys().contains(self.keys()[a]));
                        }
                        if b < before.keys().len() {
                            assert(before.keys().contains(self.keys()[b]));
                        }
                    }
                    assert forall|k: Seq<char>| before.contains(k) implies self.contains(k)
                        && self.value_of(k) == before.value_of(k) by {
                        before.lemma_present(k);
                        let i = before.index_of(k);
                        assert(self.keys()[i] == k);
                        lemma_index_of_unique(self.keys(), i);
                    }
                    assert(self.keys()[before.keys().len() as int] == k0);
                    lemma_index_of_unique(self.keys(), before.keys().len() as int);
                    assert forall|k: Seq<char>| self.contains(k) implies before.contains(k) || k
                        == k0 by {
                        let i = self.index_of(k);
                        if i < before.keys().len() {
                            assert(before.keys()[i] == k);
                        }
                    }
                    assert(self@ =~= before@.insert(k0, value@));
                }
                None
            },
        }
    }

    /// Takes `key` and its value out. Later entries move up by one.
    pub fn remove(&mut self, key: &str) -> (r: Option<V>)
        requires
            old(self).wf(),
        ensures
            final(self).wf(),
            final(self)@ == old(self)@.remove(key@),
            final(self).keys() == order_without(old(self).keys(), key@),
            old(self).contains(key@) ==> {
                &&& r == Some(old(self).value_of(key@))
                &&& final(self).keys() == old(self).keys().remove(old(self).index_of(key@))
                &&& final(self).values() == old(self).values().remove(old(self).index_of(key@))
            },
            !old(self).contains(key@) ==> {
                &&& r is None
                &&& final(self).keys() == old(self).keys()
                &&& final(self).values() == old(self).values()
            },
    {
        let ghost before = *self;
        match self.position(key) {
            Some(i) => {
                self.keys.remove(i);
                let v = self.values.remove(i);
                proof {
                    let p = i as int;
                    assert(self.keys() =~= before.keys().remove(p));
                    assert forall|a: int, b: int|
                        0 <= a < self.keys().len() && 0 <= b < self.keys().len() && a
                            != b implies self.keys()[a] != self.keys()[b] by {
                        let a0 = if a < p { a } else { a + 1 };
                        let b0 = if b < p { b } else { b + 1 };
                        assert(self.keys()[a] == before.keys()[a0]);
                        assert(self.keys()[b] == before.keys()[b0]);
                    }
                    assert forall|k: Seq<char>| self.contains(k) implies before.contains(k) && k
                        != key@ && self.value_of(k) == before.value_of(k) by {
                        let a = self.index_of(k);
                        let a0 = if a < p { a } else { a + 1 };
                        assert(before.keys()[a0] == k);
                        lemma_index_of_unique(before.keys(), a0);
                    }
                    assert forall|k: Seq<char>| before.contains(k) && k != key@ implies
                        self.contains(k) by {
                        before.lemma_present(k);
                        let a0 = before.index_of(k);
                        let a = if a0 < p { a0 } else { a0 - 1 };
                        assert(self.keys()[a] == k);
                    }
                    assert(self@ =~= before@.remove(key@));
                }
                Some(v)
            },
            None => {
                proof {
                    assert(self@ =~= before@.remove(key@));
                }
                None
            },
        }
    }

    /// Puts `value` in place of the value at position `i`; the key stays.
    pub fn set_at(&mut self, i: usize, value: V)
        requires
            old(self).wf(),
            i < old(self).keys().len(),
        ensures
            final(self).wf(),
            final(self).keys() == old(self).keys(),
            final(self).values() == old(self).values().update(i as int, value),
            final(self)@ == old(self)@.insert(old(self).keys()[i as int], value@),
    {
        let ghost before = *self;
        self.values[i] = value;
        proof {
            let key = before.keys()[i as int];
            before.lemma_entry(i as int);
            assert forall|k: Seq<char>| #[trigger] self@.contains_key(k) implies self@[k]
                == before@.insert(key, value@)[k] by {
                if k != key {
                    before.lemma_present(k);
                }
            }
            assert(self@ =~= before@.insert(key, value@));
        }
    }

    /// Drops every entry.
    pub fn clear(&mut self)
        requires
            old(self).wf(),
        ensures
            final(self).wf(),
            final(self).keys() == Seq::<Seq<char>>::empty(),
            final(self).values() == Seq::<V>::empty(),
            final(self)@ == Map::<Seq<char>, V::V>::empty(),
    {
        self.keys.clear();
        self.values.clear();
        proof {
            assert(self.keys() =~= Seq::<Seq<char>>::empty());
            assert(self@ =~= Map::<Seq<char>, V::V>::empty());
        }
    }
}

} // verus!
