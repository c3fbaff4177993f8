//! An insertion-ordered map keyed by strings.
//!
//! Keys are compared by their characters. The map keeps its entries in the
//! order in which their keys were first inserted, so that listings are
//! deterministic.

use vstd::prelude::*;

verus! {

/// A finite map from strings to values of type `V`.
///
/// The abstract value (`@`) is a `Map<Seq<char>, V>`. Beside it the map
/// exposes the sequence of its keys, in insertion order, and the sequence of
/// its values in the same order.
#[derive(Debug, Clone, PartialEq, Eq)]
pub struct StringMap<V> {
    keys: Vec<String>,
    values: Vec<V>,
}

/// The views of the strings of `s`, in order.
pub open spec fn string_views(s: Seq<String>) -> Seq<Seq<char>> {
    s.map_values(|x: String| x@)
}

/// The map that binds each key of `m` to the view of its value.
pub open spec fn view_values<V: View>(m: Map<Seq<char>, V>) -> Map<Seq<char>, V::V> {
    Map::new(|k: Seq<char>| m.contains_key(k), |k: Seq<char>| m[k]@)
}

/// Taking views commutes with binding a key.
pub proof fn lemma_view_values_insert<V: View>(m: Map<Seq<char>, V>, key: Seq<char>, value: V)
    ensures
        view_values(m.insert(key, value)) == view_values(m).insert(key, value@),
{
}

impl<V> View for StringMap<V> {
    type V = Map<Seq<char>, V>;

    open spec fn view(&self) -> Map<Seq<char>, V> {
        Map::new(
            |k: Seq<char>| self.key_seq().contains(k),
            |k: Seq<char>| self.value_seq()[self.key_seq().index_of(k)],
        )
    }
}

impl<V> StringMap<V> {
    /// The keys, in insertion order.
    pub closed spec fn key_seq(&self) -> Seq<Seq<char>> {
        self.keys@.map_values(|k: String| k@)
    }

    /// The values, in the insertion order of their keys.
    pub closed spec fn value_seq(&self) -> Seq<V> {
        self.values@
    }

    /// Keys and values line up, and no key occurs twice.
    pub open spec fn wf(&self) -> bool {
        &&& self.key_seq().len() == self.value_seq().len()
        &&& self.key_seq().no_duplicates()
    }

    /// In a well-formed map the entry at position `i` is the binding of the
    /// `i`-th key.
    pub proof fn lemma_entry(&self, i: int)
        requires
            self.wf(),
            0 <= i < self.key_seq().len(),
        ensures
            self@.contains_key(self.key_seq()[i]),
            self@[self.key_seq()[i]] == self.value_seq()[i],
            self.key_seq().index_of(self.key_seq()[i]) == i,
    {
    }

    /// Replacing the value at position `i` rebinds the `i`-th key and leaves
    /// every other binding alone.
    pub proof fn lemma_update(&self, after: &Self, i: int)
        requires
            self.wf(),
            0 <= i < self.key_seq().len(),
            after.key_seq() == self.key_seq(),
            after.value_seq() == self.value_seq().update(i, after.value_seq()[i]),
        ensures
            after.wf(),
            after@ == self@.insert(self.key_seq()[i], after.value_seq()[i]),
    {
    }

    /// Appending a fresh key adds one binding.
    pub proof fn lemma_push(&self, after: &Self, key: Seq<char>, value: V)
        requires
            self.wf(),
            !self@.contains_key(key),
            after.key_seq() == self.key_seq().push(key),
            after.value_seq() == self.value_seq().push(value),
        ensures
            after.wf(),
            after@ == self@.insert(key, value),
    {
        let n = self.key_seq().len() as int;
        assert(after.key_seq()[n] == key);
        assert forall|x: Seq<char>| self.key_seq().contains(x) implies after.key_seq().contains(
            x,
        ) by {
            let j = choose|j: int| 0 <= j < self.key_seq().len() && self.key_seq()[j] == x;
            assert(after.key_seq()[j] == x);
        }
    }

    /// The domain of a well-formed map is finite and as large as its key
    /// sequence is long.
    pub proof fn lemma_len(&self)
        requires
            self.wf(),
        ensures
            self@.dom().finite(),
            self@.dom() == self.key_seq().to_set(),
            self@.len() == self.key_seq().len(),
    {
        self.key_seq().unique_seq_to_set();
    }

    /// An empty map.
    pub fn new() -> (m: Self)
        ensures
            m.wf(),
            m.key_seq() == Seq::<Seq<char>>::empty(),
            m.value_seq() == Seq::<V>::empty(),
            m@ == Map::<Seq<char>, V>::empty(),
    {
        StringMap { keys: Vec::new(), values: Vec::new() }
    }

    /// The number of entries.
    pub fn len(&self) -> (n: usize)
        requires
            self.wf(),
        ensures
            n == self.key_seq().len(),
            n == self@.len(),
    {
        proof {
            self.lemma_len();
        }
        self.keys.len()
    }

    /// The position of `key` in insertion order, if the map binds it.
    pub fn position(&self, key: &String) -> (r: Option<usize>)
        requires
            self.wf(),
        ensures
            match r {
                Some(i) => {
                    &&& i < self.key_seq().len()
                    &&& self.key_seq()[i as int] == key@
                    &&& self@.contains_key(key@)
                    &&& self@[key@] == self.value_seq()[i as int]
                },
                None => !self@.contains_key(key@),
            },
    {
        let mut i: usize = 0;
        while i < self.keys.len()
            invariant
                i <= self.keys@.len(),
                self.wf(),
                forall|j: int| 0 <= j < i ==> self.key_seq()[j] != key@,
            decreases self.keys@.len() - i,
        {
            if self.keys[i] == *key {
                proof {
                    self.lemma_entry(i as int);
                }
                return Some(i);
            }
            i += 1;
        }
        None
    }

    /// Whether the map binds `key`.
    pub fn contains_key(&self, key: &String) -> (b: bool)
        requires
            self.wf(),
        ensures
            b == self@.contains_key(key@),
    {
        self.position(key).is_some()
    }

    /// The value bound to `key`, if any.
    pub fn get(&self, key: &String) -> (r: Option<&V>)
        requires
            self.wf(),
        ensures
            match r {
                Some(v) => self@.contains_key(key@) && *v == self@[key@],
                None => !self@.contains_key(key@),
            },
    {
        match self.position(key) {
            Some(i) => Some(&self.values[i]),
            None => None,
        }
    }

    /// The key at position `i`.
    pub fn key_at(&self, i: usize) -> (k: &String)
        requires
            self.wf(),
            i < self.key_seq().len(),
        ensures
            k@ == self.key_seq()[i as int],
    {
        &self.keys[i]
    }

    /// The value at position `i`.
    pub fn value_at(&self, i: usize) -> (v: &V)
        requires
            self.wf(),
            i < self.key_seq().len(),
        ensures
            *v == self.value_seq()[i as int],
            *v == self@[self.key_seq()[i as int]],
    {
        &self.values[i]
    }

    /// Mutable access to the value at position `i`. The keys stay as they are.
    pub fn value_at_mut(&mut self, i: usize) -> (v: &mut V)
        requires
            old(self).wf(),
            i < old(self).key_seq().len(),
        ensures
            *v == old(self).value_seq()[i as int],
            final(self).key_seq() == old(self).key_seq(),
            final(self).value_seq() == old(self).value_seq().update(i as int, *final(v)),
    {
        &mut self.values[i]
    }

    /// Binds a key that the map does not hold yet.
    pub fn push_new(&mut self, key: String, value: V)
        requires
            old(self).wf(),
            !old(self)@.contains_key(key@),
        ensures
            final(self).wf(),
            final(self).key_seq() == old(self).key_seq().push(key@),
            final(self).value_seq() == old(self).value_seq().push(value),
            final(self)@ == old(self)@.insert(key@, value),
    {
        let ghost before = *self;
        self.keys.push(key);
        self.values.push(value);
        proof {
            assert(self.key_seq() =~= before.key_seq().push(key@));
            before.lemma_push(self, key@, value);
        }
    }

    /// Binds `key` to `value`. A key that is bound already keeps its place
    /// and gets the new value; the value it had is returned.
    pub fn insert(&mut self, key: String, value: V) -> (previous: Option<V>)
        requires
            old(self).wf(),
        ensures
            final(self).wf(),
            final(self)@ == old(self)@.insert(key@, value),
            previous == if old(self)@.contains_key(key@) {
                Some(old(self)@[key@])
            } else {
                None
            },
            old(self)@.contains_key(key@) ==> final(self).key_seq() == old(self).key_seq()
                && final(self).value_seq() == old(self).value_seq().update(
                old(self).key_seq().index_of(key@),
                value,
            ),
            !old(self)@.contains_key(key@) ==> final(self).key_seq() == old(self).key_seq().push(
                key@,
            ) && final(self).value_seq() == old(self).value_seq().push(value),
    {
        match self.position(&key) {
            Some(i) => {
                self.values.push(value);
                let previous = self.values.swap_remove(i);
                Some(previous)
            },
            None => {
                self.push_new(key, value);
                None
            },
        }
    }

    /// Removing the entry at position `i` unbinds the `i`-th key and leaves
    /// every other binding alone.
    pub proof fn lemma_remove(&self, after: &Self, i: int)
        requires
            self.wf(),
            0 <= i < self.key_seq().len(),
            after.key_seq() == self.key_seq().remove(i),
            after.value_seq() == self.value_seq().remove(i),
        ensures
            after.wf(),
            after@ == self@.remove(self.key_seq()[i]),
    {
        let ks = self.key_seq();
        let ka = after.key_seq();
        assert forall|x: Seq<char>| ks.contains(x) && x != ks[i] implies ka.contains(x) by {
            let at = choose|at: int| 0 <= at < ks.len() && ks[at] == x;
            let moved = if at < i {
                at
            } else {
                at - 1
            };
            assert(ka[moved] == x);
        }
    }

    /// Unbinds `key`, if it is bound, and returns the value it had. The
    /// other entries keep their order.
    pub fn remove(&mut self, key: &String) -> (previous: Option<V>)
        requires
            old(self).wf(),
        ensures
            final(self).wf(),
            final(self)@ == old(self)@.remove(key@),
            previous == if old(self)@.contains_key(key@) {
                Some(old(self)@[key@])
            } else {
                None
            },
            old(self)@.contains_key(key@) ==> final(self).key_seq() == old(self).key_seq().remove(
                old(self).key_seq().index_of(key@),
            ) && final(self).value_seq() == old(self).value_seq().remove(
                old(self).key_seq().index_of(key@),
            ),
            !old(self)@.contains_key(key@) ==> final(self).key_seq() == old(self).key_seq()
                && final(self).value_seq() == old(self).value_seq(),
    {
        let ghost before = *self;
        match self.position(key) {
            Some(i) => {
                self.keys.remove(i);
                let previous = self.values.remove(i);
                proof {
                    assert(self.key_seq() =~= before.key_seq().remove(i as int));
                    before.lemma_remove(self, i as int);
                }
                Some(previous)
            },
            None => None,
        }
    }

    /// Copies of the keys, in insertion order.
    pub fn keys(&self) -> (keys: Vec<String>)
        requires
            self.wf(),
        ensures
            string_views(keys@) == self.key_seq(),
    {
        let mut keys: Vec<String> = Vec::new();
        let mut i: usize = 0;
        while i < self.keys.len()
            invariant
                i <= self.keys@.len(),
                keys@.len() == i,
                forall|j: int| 0 <= j < i ==> keys@[j]@ == self.keys@[j]@,
            decreases self.keys@.len() - i,
        {
            keys.push(self.keys[i].clone());
            i += 1;
        }
        keys
    }
}

} // verus!
