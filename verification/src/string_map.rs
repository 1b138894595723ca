//! A mapping from text keys to values, kept as a list of pairs.

use crate::text::str_eq;
use vstd::prelude::*;

verus! {

/// Reads a list of pairs as a mapping: a later pair overrides an earlier one
/// that has the same key.
pub open spec fn map_of<V>(pairs: Seq<(Seq<char>, V)>) -> Map<Seq<char>, V>
    decreases pairs.len(),
{
    if pairs.len() == 0 {
        Map::empty()
    } else {
        map_of(pairs.drop_last()).insert(pairs.last().0, pairs.last().1)
    }
}

/// No key stands twice in the list.
pub open spec fn distinct_keys<V>(pairs: Seq<(Seq<char>, V)>) -> bool {
    forall|i: int, j: int| 0 <= i < j < pairs.len() ==> pairs[i].0 != pairs[j].0
}

/// `i` is the last place in the list where `key` stands.
pub open spec fn is_last_place<V>(pairs: Seq<(Seq<char>, V)>, key: Seq<char>, i: int) -> bool {
    &&& 0 <= i < pairs.len()
    &&& pairs[i].0 == key
    &&& forall|j: int| i < j < pairs.len() ==> pairs[j].0 != key
}

/// Adding a pair at the end of the list inserts it into the mapping.
pub proof fn lemma_map_of_push<V>(pairs: Seq<(Seq<char>, V)>, key: Seq<char>, value: V)
    ensures
        map_of(pairs.push((key, value))) == map_of(pairs).insert(key, value),
{
    assert(pairs.push((key, value)).drop_last() =~= pairs);
}

/// The mapping holds exactly the keys of the list.
pub proof fn lemma_map_of_keys<V>(pairs: Seq<(Seq<char>, V)>, key: Seq<char>)
    ensures
        map_of(pairs).contains_key(key) <==> exists|i: int|
            0 <= i < pairs.len() && (#[trigger] pairs[i]).0 == key,
    decreases pairs.len(),
{
    if pairs.len() > 0 {
        let front = pairs.drop_last();
        lemma_map_of_keys(front, key);
        if map_of(front).contains_key(key) {
            let i = choose|i: int| 0 <= i < front.len() && (#[trigger] front[i]).0 == key;
            assert(pairs[i].0 == key);
        }
        if exists|i: int| 0 <= i < pairs.len() && (#[trigger] pairs[i]).0 == key {
            let i = choose|i: int| 0 <= i < pairs.len() && (#[trigger] pairs[i]).0 == key;
            if i < pairs.len() - 1 {
                assert(front[i].0 == key);
            }
        }
    }
}

/// The mapping gives a key the value that stands at the key's last place.
pub proof fn lemma_map_of_last_place<V>(pairs: Seq<(Seq<char>, V)>, key: Seq<char>, i: int)
    requires
        is_last_place(pairs, key, i),
    ensures
        map_of(pairs).contains_key(key),
        map_of(pairs)[key] == pairs[i].1,
    decreases pairs.len(),
{
    if i < pairs.len() - 1 {
        let front = pairs.drop_last();
        assert(is_last_place(front, key, i));
        lemma_map_of_last_place(front, key, i);
    }
}

/// Replacing the value at a key's last place inserts the new value into the
/// mapping.
pub proof fn lemma_map_of_replace<V>(pairs: Seq<(Seq<char>, V)>, key: Seq<char>, i: int, value: V)
    requires
        is_last_place(pairs, key, i),
    ensures
        map_of(pairs.update(i, (key, value))) == map_of(pairs).insert(key, value),
    decreases pairs.len(),
{
    let changed = pairs.update(i, (key, value));
    let front = pairs.drop_last();
    if i == pairs.len() - 1 {
        assert(changed.drop_last() =~= front);
        assert(map_of(changed) =~= map_of(pairs).insert(key, value));
    } else {
        assert(is_last_place(front, key, i));
        lemma_map_of_replace(front, key, i, value);
        assert(changed.drop_last() =~= front.update(i, (key, value)));
        assert(map_of(changed) =~= map_of(pairs).insert(key, value));
    }
}

/// A list without a key that stands twice holds as many pairs as its mapping
/// holds keys.
pub proof fn lemma_map_of_distinct_keys<V>(pairs: Seq<(Seq<char>, V)>)
    requires
        distinct_keys(pairs),
    ensures
        map_of(pairs).dom().finite(),
        map_of(pairs).dom().len() == pairs.len(),
    decreases pairs.len(),
{
    if pairs.len() > 0 {
        let front = pairs.drop_last();
        let key = pairs.last().0;
        assert(distinct_keys(front));
        lemma_map_of_distinct_keys(front);
        lemma_map_of_keys(front, key);
        assert(!map_of(front).contains_key(key)) by {
            if map_of(front).contains_key(key) {
                let i = choose|i: int| 0 <= i < front.len() && (#[trigger] front[i]).0 == key;
                assert(pairs[i].0 != pairs[pairs.len() - 1].0);
            }
        }
        assert(map_of(pairs).dom() =~= map_of(front).dom().insert(key));
    }
}

/// A mapping from text keys to values.
///
/// The pairs are kept in the order in which their keys first came in, and no
/// key is kept twice.
#[derive(Debug)]
pub struct StringMap<V> {
    entries: Vec<(String, V)>,
}

impl<V> StringMap<V> {
    /// The keys in the order in which they are kept.
    pub closed spec fn keys(&self) -> Seq<Seq<char>> {
        Seq::new(self.entries@.len(), |i: int| self.entries@[i].0@)
    }

    #[verifier::type_invariant]
    spec fn keys_are_distinct(self) -> bool {
        forall|i: int, j: int| 0 <= i < j < self.keys().len() ==> self.keys()[i] != self.keys()[j]
    }
}

impl<V: Clone> Clone for StringMap<V> {
    /// A mapping of the same keys in the same order, each with a clone of its
    /// value.
    fn clone(&self) -> (copy: Self)
        ensures
            copy.keys() == self.keys(),
    {
        proof {
            use_type_invariant(self);
        }
        let mut entries: Vec<(String, V)> = Vec::new();
        let mut i: usize = 0;
        while i < self.entries.len()
            invariant
                i <= self.entries@.len(),
                entries@.len() == i,
                forall|j: int| 0 <= j < i ==> (#[trigger] entries@[j]).0@ == self.entries@[j].0@,
            decreases self.entries@.len() - i,
        {
            entries.push((self.entries[i].0.clone(), self.entries[i].1.clone()));
            i += 1;
        }
        proof {
            assert forall|a: int, b: int| 0 <= a < b < entries@.len() implies entries@[a].0@
                != entries@[b].0@ by {
                assert(self.keys()[a] != self.keys()[b]);
            }
        }
        let copy = StringMap { entries };
        proof {
            assert(copy.keys() =~= self.keys());
        }
        copy
    }
}

impl<V: View> View for StringMap<V> {
    type V = Map<Seq<char>, V::V>;

    open spec fn view(&self) -> Map<Seq<char>, V::V> {
        map_of(self.pairs())
    }
}

impl<V: View> StringMap<V> {
    /// The pairs of the mapping in the order in which they are kept.
    pub closed spec fn pairs(&self) -> Seq<(Seq<char>, V::V)> {
        Seq::new(self.entries@.len(), |i: int| (self.entries@[i].0@, self.entries@[i].1@))
    }

    /// An empty mapping.
    pub fn new() -> (m: Self)
        ensures
            m.pairs() == Seq::<(Seq<char>, V::V)>::empty(),
            m@ == Map::<Seq<char>, V::V>::empty(),
    {
        let m = StringMap { entries: Vec::new() };
        assert(m.pairs() =~= Seq::<(Seq<char>, V::V)>::empty());
        m
    }

    /// The number of pairs, which is the number of keys.
    pub fn len(&self) -> (n: usize)
        ensures
            n == self.pairs().len(),
            distinct_keys(self.pairs()),
            self@.dom().finite(),
            n == self@.dom().len(),
    {
        proof {
            use_type_invariant(self);
            assert(distinct_keys(self.pairs())) by {
                let pairs = self.pairs();
                assert forall|i: int, j: int| 0 <= i < j < pairs.len() implies pairs[i].0
                    != pairs[j].0 by {
                    assert(self.keys()[i] != self.keys()[j]);
                }
            }
            lemma_map_of_distinct_keys(self.pairs());
        }
        self.entries.len()
    }

    /// The key of the pair at `index`.
    pub fn key_at(&self, index: usize) -> (key: &String)
        requires
            index < self.pairs().len(),
        ensures
            key@ == self.pairs()[index as int].0,
    {
        &self.entries[index].0
    }

    /// The value of the pair at `index`.
    pub fn value_at(&self, index: usize) -> (value: &V)
        requires
            index < self.pairs().len(),
        ensures
            value@ == self.pairs()[index as int].1,
    {
        &self.entries[index].1
    }

    /// The place at which `key` stands, if it stands anywhere.
    fn place_of(&self, key: &str) -> (place: Option<usize>)
        ensures
            match place {
                Some(i) => is_last_place(self.pairs(), key@, i as int),
                None => forall|j: int| 0 <= j < self.pairs().len() ==> self.pairs()[j].0 != key@,
            },
    {
        let mut i: usize = self.entries.len();
        while i > 0
            invariant
                i <= self.entries@.len(),
                self.pairs().len() == self.entries@.len(),
                forall|j: int| i <= j < self.pairs().len() ==> self.pairs()[j].0 != key@,
            decreases i,
        {
            i -= 1;
            if str_eq(self.entries[i].0.as_str(), key) {
                return Some(i);
            }
        }
        None
    }

    /// Tells whether the mapping holds `key`.
    pub fn contains_key(&self, key: &str) -> (held: bool)
        ensures
            held == self@.contains_key(key@),
    {
        let place = self.place_of(key);
        proof {
            lemma_map_of_keys(self.pairs(), key@);
        }
        place.is_some()
    }

    /// The value that the mapping gives to `key`.
    pub fn get(&self, key: &str) -> (value: Option<&V>)
        ensures
            match value {
                Some(v) => self@.contains_key(key@) && self@[key@] == v@,
                None => !self@.contains_key(key@),
            },
    {
        match self.place_of(key) {
            Some(i) => {
                proof {
                    lemma_map_of_last_place(self.pairs(), key@, i as int);
                }
                Some(&self.entries[i].1)
            },
            None => {
                proof {
                    lemma_map_of_keys(self.pairs(), key@);
                }
                None
            },
        }
    }

    /// Gives `key` the value `value`, in place of any value it had.
    pub fn insert(&mut self, key: String, value: V)
        ensures
            final(self)@ == old(self)@.insert(key@, value@),
    {
        proof {
            use_type_invariant(&*self);
        }
        let ghost before = self.pairs();
        let ghost keys_before = self.keys();
        let place = self.place_of(key.as_str());
        let mut entries: Vec<(String, V)> = Vec::new();
        std::mem::swap(&mut entries, &mut self.entries);
        match place {
            Some(i) => {
                proof {
                    lemma_map_of_replace(before, key@, i as int, value@);
                }
                entries.set(i, (key, value));
            },
            None => {
                proof {
                    lemma_map_of_push(before, key@, value@);
                }
                entries.push((key, value));
            },
        }
        proof {
            let keys_after = Seq::new(entries@.len(), |i: int| entries@[i].0@);
            assert forall|i: int, j: int| 0 <= i < j < keys_after.len() implies keys_after[i]
                != keys_after[j] by {
                if j < keys_before.len() {
                    assert(keys_before[i] != keys_before[j]);
                } else {
                    assert(before[i].0 != key@);
                }
            }
        }
        self.entries = entries;
        proof {
            match place {
                Some(i) => {
                    assert(self.pairs() =~= before.update(i as int, (key@, value@)));
                },
                None => {
                    assert(self.pairs() =~= before.push((key@, value@)));
                },
            }
        }
    }
}

impl StringMap<String> {
    /// Inserts every pair of `other`, in place of any value that its key had.
    pub fn overlay(&mut self, other: &StringMap<String>)
        ensures
            final(self)@ == old(self)@.union_prefer_right(other@),
    {
        let ghost start = self@;
        let ghost added = other.pairs();
        let mut i: usize = 0;
        proof {
            assert(start.union_prefer_right(map_of(added.take(0))) =~= start);
        }
        while i < other.len()
            invariant
                i <= added.len(),
                added == other.pairs(),
                self@ == start.union_prefer_right(map_of(added.take(i as int))),
            decreases added.len() - i,
        {
            let key = other.key_at(i).clone();
            let value = other.value_at(i).clone();
            proof {
                assert(added.take(i + 1).drop_last() =~= added.take(i as int));
                assert(start.union_prefer_right(map_of(added.take(i + 1)))
                    =~= start.union_prefer_right(map_of(added.take(i as int))).insert(
                    key@,
                    value@,
                ));
            }
            self.insert(key, value);
            i += 1;
        }
        proof {
            assert(added.take(i as int) =~= added);
        }
    }
}

} // verus!
