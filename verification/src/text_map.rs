//! A map from text keys to values, kept in the order in which the keys came.

use vstd::prelude::*;

verus! {

/// The texts of a list of strings, in the order of the list.
pub open spec fn texts_of(strings: Seq<String>) -> Seq<Seq<char>> {
    Seq::new(strings.len(), |i: int| strings[i]@)
}

/// The place of `key` in `keys`, where it occurs.
pub open spec fn place_of(keys: Seq<Seq<char>>, key: Seq<char>) -> int {
    choose|i: int| 0 <= i < keys.len() && keys[i] == key
}

/// In a list without repetitions a key occurs at one place only.
pub proof fn lemma_place_of(keys: Seq<Seq<char>>, i: int)
    requires
        keys.no_duplicates(),
        0 <= i < keys.len(),
    ensures
        place_of(keys, keys[i]) == i,
{
    let j = place_of(keys, keys[i]);
    assert(0 <= j < keys.len() && keys[j] == keys[i]);
}

/// A map from text keys to values of type `V`. A key occurs once; the keys
/// are walked in the order in which they were first set.
///
/// The view is the map from each key's text to its value's view;
/// [`TextMap::keys`] is the order.
pub struct TextMap<V> {
    names: Vec<String>,
    values: Vec<V>,
}

impl<V: View> View for TextMap<V> {
    type V = Map<Seq<char>, V::V>;

    closed spec fn view(&self) -> Map<Seq<char>, V::V> {
        Map::new(
            |k: Seq<char>| self.keys().contains(k),
            |k: Seq<char>| self.values@[place_of(self.keys(), k)]@,
        )
    }
}

impl<V: View> TextMap<V> {
    /// The keys, in the order in which the map is walked.
    pub closed spec fn keys(&self) -> Seq<Seq<char>> {
        texts_of(self.names@)
    }

    /// The map is well formed: no key occurs twice.
    pub closed spec fn wf(&self) -> bool {
        &&& self.names@.len() == self.values@.len()
        &&& self.keys().no_duplicates()
    }

    /// The keys of a well-formed map are the domain of its view, each once.
    pub proof fn lemma_keys(&self)
        requires
            self.wf(),
        ensures
            self.keys().no_duplicates(),
            forall|k: Seq<char>| self@.contains_key(k) <==> self.keys().contains(k),
            forall|i: int| 0 <= i < self.keys().len() ==> self@.contains_key(#[trigger] self.keys()[i]),
    {
    }

    /// The empty map.
    pub fn new() -> (m: TextMap<V>)
        ensures
            m.wf(),
            m@ == Map::<Seq<char>, V::V>::empty(),
            m.keys() == Seq::<Seq<char>>::empty(),
    {
        let m = TextMap { names: Vec::new(), values: Vec::new() };
        assert(m.keys() =~= Seq::<Seq<char>>::empty());
        assert(m@ =~= Map::<Seq<char>, V::V>::empty());
        m
    }

    /// The number of keys.
    pub fn len(&self) -> (n: usize)
        requires
            self.wf(),
        ensures
            n == self.keys().len(),
    {
        self.names.len()
    }

    /// Whether the map holds no key.
    pub fn is_empty(&self) -> (b: bool)
        requires
            self.wf(),
        ensures
            b == (self.keys().len() == 0),
            b == (self@ == Map::<Seq<char>, V::V>::empty()),
    {
        proof {
            if self.names.len() == 0 {
                assert(self@ =~= Map::<Seq<char>, V::V>::empty());
            } else {
                assert(self.keys().contains(self.keys()[0]));
                assert(self@.contains_key(self.keys()[0]));
            }
        }
        self.names.len() == 0
    }

    fn find(&self, key: &String) -> (r: Option<usize>)
        requires
            self.wf(),
        ensures
            match r {
                Some(i) => i < self.keys().len() && self.keys()[i as int] == key@,
                None => !self.keys().contains(key@),
            },
    {
        let mut i: usize = 0;
        while i < self.names.len()
            invariant
                i <= self.names.len(),
                forall|j: int| 0 <= j < i ==> self.keys()[j] != key@,
            decreases self.names.len() - i,
        {
            if self.names[i] == *key {
                return Some(i);
            }
            i += 1;
        }
        None
    }

    /// Whether `key` is in the map.
    pub fn contains_key(&self, key: &String) -> (b: bool)
        requires
            self.wf(),
        ensures
            b == self@.contains_key(key@),
    {
        self.find(key).is_some()
    }

    /// The value under `key`, if the map holds the key.
    pub fn get(&self, key: &String) -> (r: Option<&V>)
        requires
            self.wf(),
        ensures
            match r {
                Some(v) => self@.contains_key(key@) && v@ == self@[key@],
                None => !self@.contains_key(key@),
            },
    {
        match self.find(key) {
            Some(i) => {
                proof {
                    lemma_place_of(self.keys(), i as int);
                }
                Some(&self.values[i])
            },
            None => None,
        }
    }

    /// The key at place `i` of the walk.
    pub fn key_at(&self, i: usize) -> (k: &String)
        requires
            self.wf(),
            i < self.keys().len(),
        ensures
            k@ == self.keys()[i as int],
    {
        &self.names[i]
    }

    /// The value under the key at place `i` of the walk.
    pub fn value_at(&self, i: usize) -> (v: &V)
        requires
            self.wf(),
            i < self.keys().len(),
        ensures
            self@.contains_key(self.keys()[i as int]),
            v@ == self@[self.keys()[i as int]],
    {
        proof {
            lemma_place_of(self.keys(), i as int);
            assert(self.keys().contains(self.keys()[i as int]));
        }
        &self.values[i]
    }

    /// Puts `value` under `key`. A key that the map held keeps its place in
    /// the walk; a new key comes last.
    pub fn set(&mut self, key: String, value: V)
        requires
            old(self).wf(),
        ensures
            final(self).wf(),
            final(self)@ == old(self)@.insert(key@, value@),
            final(self).keys() == if old(self)@.contains_key(key@) {
                old(self).keys()
            } else {
                old(self).keys().push(key@)
            },
    {
        match self.find(&key) {
            Some(i) => {
                self.values.set(i, value);
                proof {
                    let keys = self.keys();
                    assert(keys =~= old(self).keys());
                    assert(keys.contains(key@));
                    lemma_place_of(keys, i as int);
                    assert forall|k: Seq<char>| keys.contains(k) implies #[trigger] self@[k] == old(
                        self,
                    )@.insert(key@, value@)[k] by {
                        let j = place_of(keys, k);
                        assert(0 <= j < keys.len() && keys[j] == k);
                    }
                    assert(self@ =~= old(self)@.insert(key@, value@));
                }
            },
            None => {
                self.names.push(key);
                self.values.push(value);
                proof {
                    let before = old(self).keys();
                    let keys = self.keys();
                    assert(keys =~= before.push(key@));
                    assert forall|k: Seq<char>| keys.contains(k) implies #[trigger] self@[k] == old(
                        self,
                    )@.insert(key@, value@)[k] by {
                        let j = place_of(keys, k);
                        assert(0 <= j < keys.len() && keys[j] == k);
                        if k != key@ {
                            assert(j < before.len());
                            assert(before[j] == k);
                            lemma_place_of(before, j);
                        }
                    }
                    assert forall|k: Seq<char>| keys.contains(k) <==> (before.contains(k) || k
                        == key@) by {
                        if before.contains(k) {
                            let j = choose|j: int| 0 <= j < before.len() && before[j] == k;
                            assert(keys[j] == k);
                        }
                        if k == key@ {
                            assert(keys[before.len() as int] == k);
                        }
                    }
                    assert(self@ =~= old(self)@.insert(key@, value@));
                }
            },
        }
    }

    /// Takes `key` and its value out of the map; the other keys keep their
    /// order. A key that the map does not hold changes nothing.
    pub fn remove(&mut self, key: &String)
        requires
            old(self).wf(),
        ensures
            final(self).wf(),
            final(self)@ == old(self)@.remove(key@),
            final(self).keys() == if old(self)@.contains_key(key@) {
                old(self).keys().remove(place_of(old(self).keys(), key@))
            } else {
                old(self).keys()
            },
    {
        match self.find(key) {
            Some(i) => {
                self.names.remove(i);
                self.values.remove(i);
                proof {
                    let before = old(self).keys();
                    let keys = self.keys();
                    lemma_place_of(before, i as int);
                    assert(before.contains(key@));
                    assert(keys =~= before.remove(i as int));
                    assert forall|a: int, b: int|
                        0 <= a < keys.len() && 0 <= b < keys.len() && a != b
                        implies keys[a] != keys[b] by {
                        let a0 = if a < i { a } else { a + 1 };
                        let b0 = if b < i { b } else { b + 1 };
                        assert(keys[a] == before[a0] && keys[b] == before[b0]);
                    }
                    assert forall|k: Seq<char>| keys.contains(k) <==> (before.contains(k) && k
                        != key@) by {
                        if keys.contains(k) {
                            let j = choose|j: int| 0 <= j < keys.len() && keys[j] == k;
                            let j0 = if j < i { j } else { j + 1 };
                            assert(before[j0] == k);
                        }
                        if before.contains(k) && k != key@ {
                            let j = choose|j: int| 0 <= j < before.len() && before[j] == k;
                            let j1 = if j < i { j } else { j - 1 };
                            assert(keys[j1] == k);
                        }
                    }
                    assert forall|k: Seq<char>| keys.contains(k) implies #[trigger] self@[k] == old(
                        self,
                    )@[k] by {
                        let j = place_of(keys, k);
                        assert(0 <= j < keys.len() && keys[j] == k);
                        let j0 = if j < i { j } else { j + 1 };
                        assert(before[j0] == k);
                        lemma_place_of(before, j0);
                    }
                    assert(self@ =~= old(self)@.remove(key@));
                }
            },
            None => {
                proof {
                    assert(self@ =~= old(self)@.remove(key@));
                }
            },
        }
    }
}

} // verus!
