//! A map from names to values that is walked in the order of the names.

use crate::ordering::{self, name_order, NameOrder};
use vstd::prelude::*;
use vstd::string::*;

verus! {

/// A map from names to values, kept in the order of the names.
#[derive(Debug, PartialEq, Eq)]
pub struct NameMap<V> {
    entries: Vec<(String, V)>,
}

/// The map that pairs the `i`-th key with the `i`-th value.
pub open spec fn paired<V>(keys: Seq<Seq<char>>, values: Seq<V>) -> Map<Seq<char>, V> {
    Map::new(|k: Seq<char>| keys.contains(k), |k: Seq<char>| values[keys.index_of(k)])
}

spec fn keys_of<V>(entries: Seq<(String, V)>) -> Seq<Seq<char>> {
    Seq::new(entries.len(), |i: int| entries[i].0@)
}

/// `key` is missing from `keys` and belongs at the place `at`.
spec fn splits_at(keys: Seq<Seq<char>>, key: Seq<char>, at: int) -> bool {
    &&& 0 <= at <= keys.len()
    &&& forall|k: int| 0 <= k < at ==> ordering::before(#[trigger] keys[k], key)
    &&& forall|k: int| at <= k < keys.len() ==> ordering::before(key, #[trigger] keys[k])
}

spec fn values_of<V>(entries: Seq<(String, V)>) -> Seq<V> {
    Seq::new(entries.len(), |i: int| entries[i].1)
}

impl<V> View for NameMap<V> {
    type V = Map<Seq<char>, V>;

    open spec fn view(&self) -> Map<Seq<char>, V> {
        paired(self.keys(), self.values())
    }
}

/// Where keys stand in strict order, the value of a key is the one at its place.
pub proof fn lemma_paired<V>(keys: Seq<Seq<char>>, values: Seq<V>)
    requires
        ordering::strictly_ordered(keys),
        keys.len() == values.len(),
    ensures
        forall|i: int|
            0 <= i < keys.len() ==> {
                &&& paired(keys, values).dom().contains(#[trigger] keys[i])
                &&& paired(keys, values)[keys[i]] == values[i]
            },
        forall|k: Seq<char>| #[trigger]
            paired(keys, values).dom().contains(k) ==> exists|i: int|
                0 <= i < keys.len() && #[trigger] keys[i] == k,
{
    assert forall|i: int| 0 <= i < keys.len() implies {
        &&& paired(keys, values).dom().contains(#[trigger] keys[i])
        &&& paired(keys, values)[keys[i]] == values[i]
    } by {
        let j = keys.index_of(keys[i]);
        assert(keys.contains(keys[i]));
        assert(keys[j] == keys[i]);
        if i < j {
            assert(ordering::before(keys[i], keys[j]));
            ordering::lemma_before_irreflexive(keys[i]);
        } else if j < i {
            assert(ordering::before(keys[j], keys[i]));
            ordering::lemma_before_irreflexive(keys[i]);
        }
    }
}

impl<V> NameMap<V> {
    /// The names in the map, in order.
    pub closed spec fn keys(&self) -> Seq<Seq<char>> {
        keys_of(self.entries@)
    }

    /// The values in the map, in the order of their names.
    pub closed spec fn values(&self) -> Seq<V> {
        values_of(self.entries@)
    }

    #[verifier::type_invariant]
    spec fn in_order(self) -> bool {
        ordering::strictly_ordered(keys_of(self.entries@))
    }

    /// An empty map.
    pub fn new() -> (res: Self)
        ensures
            res@ == Map::<Seq<char>, V>::empty(),
            res.keys() == Seq::<Seq<char>>::empty(),
            res.values() == Seq::<V>::empty(),
    {
        let res = NameMap { entries: Vec::new() };
        assert(res.keys() =~= Seq::empty());
        assert(res.values() =~= Seq::empty());
        assert(res@ =~= Map::empty());
        res
    }

    /// The number of names in the map.
    pub fn len(&self) -> (res: usize)
        ensures
            res == self.keys().len(),
            res == self.values().len(),
            ordering::strictly_ordered(self.keys()),
    {
        proof {
            use_type_invariant(self);
        }
        self.entries.len()
    }

    /// Whether the map holds no name.
    pub fn is_empty(&self) -> (res: bool)
        ensures
            res == (self@ == Map::<Seq<char>, V>::empty()),
            res == (self.keys().len() == 0),
    {
        if self.entries.len() == 0 {
            assert(self@ =~= Map::empty());
            true
        } else {
            assert(self.keys().contains(self.keys()[0]));
            assert(self@.dom().contains(self.keys()[0]));
            false
        }
    }

    /// The `i`-th name in order.
    pub fn key_at(&self, i: usize) -> (res: &str)
        requires
            i < self.keys().len(),
        ensures
            res@ == self.keys()[i as int],
    {
        self.entries[i].0.as_str()
    }

    /// The value of the `i`-th name in order.
    pub fn value_at(&self, i: usize) -> (res: &V)
        requires
            i < self.values().len(),
        ensures
            *res == self.values()[i as int],
    {
        &self.entries[i].1
    }

    /// Where a name stands, or where it would be inserted.
    fn find(entries: &Vec<(String, V)>, key: &str) -> (res: Result<usize, usize>)
        requires
            ordering::strictly_ordered(keys_of(entries@)),
        ensures
            match res {
                Ok(at) => at < entries@.len() && keys_of(entries@)[at as int] == key@,
                Err(at) => splits_at(keys_of(entries@), key@, at as int),
            },
    {
        let ghost keys = keys_of(entries@);
        let mut low: usize = 0;
        let mut high: usize = entries.len();
        while low < high
            invariant
                keys == keys_of(entries@),
                ordering::strictly_ordered(keys),
                low <= high <= keys.len(),
                forall|k: int| 0 <= k < low ==> ordering::before(#[trigger] keys[k], key@),
                forall|k: int|
                    high <= k < keys.len() ==> ordering::before(key@, #[trigger] keys[k]),
            decreases high - low,
        {
            let middle: usize = low + (high - low) / 2;
            assert(keys[middle as int] == entries@[middle as int].0@);
            match name_order(entries[middle].0.as_str(), key) {
                NameOrder::Same => {
                    return Ok(middle);
                },
                NameOrder::Before => {
                    proof {
                        assert forall|k: int| 0 <= k < middle + 1 implies ordering::before(
                            #[trigger] keys[k],
                            key@,
                        ) by {
                            if k < middle {
                                ordering::lemma_before_transitive(
                                    keys[k],
                                    keys[middle as int],
                                    key@,
                                );
                            }
                        }
                    }
                    low = middle + 1;
                },
                NameOrder::After => {
                    proof {
                        assert forall|k: int| middle <= k < keys.len() implies ordering::before(
                            key@,
                            #[trigger] keys[k],
                        ) by {
                            if middle < k {
                                ordering::lemma_before_transitive(
                                    key@,
                                    keys[middle as int],
                                    keys[k],
                                );
                            }
                        }
                    }
                    high = middle;
                },
            }
        }
        Err(low)
    }

    /// The value of a name, if the map holds it.
    pub fn get(&self, key: &str) -> (res: Option<&V>)
        ensures
            match res {
                Some(value) => self@.dom().contains(key@) && *value == self@[key@],
                None => !self@.dom().contains(key@),
            },
    {
        proof {
            use_type_invariant(self);
            lemma_paired(self.keys(), self.values());
        }
        match Self::find(&self.entries, key) {
            Ok(at) => {
                assert(self.keys()[at as int] == key@);
                Some(&self.entries[at].1)
            },
            Err(at) => {
                proof {
                    lemma_absent(self.keys(), key@, at as int);
                }
                None
            },
        }
    }

    /// Whether the map holds a name.
    pub fn contains_key(&self, key: &str) -> (res: bool)
        ensures
            res == self@.dom().contains(key@),
    {
        self.get(key).is_some()
    }

    /// Give a name a value, in place of the one it has.
    pub fn insert(&mut self, key: String, value: V)
        ensures
            final(self)@ == old(self)@.insert(key@, value),
    {
        proof {
            use_type_invariant(&*self);
        }
        let ghost keys = self.keys();
        let ghost values = self.values();
        proof {
            lemma_paired(keys, values);
        }
        let mut entries: Vec<(String, V)> = Vec::new();
        core::mem::swap(&mut entries, &mut self.entries);
        match Self::find(&entries, key.as_str()) {
            Ok(at) => {
                let ghost place = at as int;
                entries.remove(at);
                entries.insert(at, (key, value));
                proof {
                    assert(keys_of(entries@) =~= keys);
                    assert(values_of(entries@) =~= values.update(place, value));
                    lemma_paired(keys, values.update(place, value));
                    assert(paired(keys, values.update(place, value)) =~= paired(
                        keys,
                        values,
                    ).insert(key@, value));
                }
                self.entries = entries;
            },
            Err(at) => {
                let ghost place = at as int;
                entries.insert(at, (key, value));
                proof {
                    let new_keys = keys.insert(place, key@);
                    let new_values = values.insert(place, value);
                    assert(keys_of(entries@) =~= new_keys);
                    assert(values_of(entries@) =~= new_values);
                    lemma_insert_strictly_ordered(keys, key@, place);
                    lemma_paired(new_keys, new_values);
                    lemma_paired_insert(keys, values, key@, value, place);
                }
                self.entries = entries;
            },
        }
    }

    /// Take a name out of the map.
    pub fn remove(&mut self, key: &str)
        ensures
            final(self)@ == old(self)@.remove(key@),
    {
        proof {
            use_type_invariant(&*self);
        }
        let ghost keys = self.keys();
        let ghost values = self.values();
        proof {
            lemma_paired(keys, values);
        }
        let mut entries: Vec<(String, V)> = Vec::new();
        core::mem::swap(&mut entries, &mut self.entries);
        match Self::find(&entries, key) {
            Ok(at) => {
                let ghost place = at as int;
                entries.remove(at);
                proof {
                    assert(keys_of(entries@) =~= keys.remove(place));
                    assert(values_of(entries@) =~= values.remove(place));
                    lemma_paired_remove(keys, values, place);
                }
            },
            Err(at) => {
                proof {
                    lemma_absent(keys, key@, at as int);
                    assert(paired(keys, values).remove(key@) =~= paired(keys, values));
                }
            },
        }
        self.entries = entries;
    }

    /// Keep only the names that another map holds too.
    pub fn retain_keys_of<W>(&mut self, other: &NameMap<W>)
        ensures
            final(self)@ == old(self)@.restrict(other@.dom()),
    {
        proof {
            use_type_invariant(&*self);
        }
        let ghost start = self@;
        let mut entries: Vec<(String, V)> = Vec::new();
        core::mem::swap(&mut entries, &mut self.entries);
        let mut i: usize = entries.len();
        proof {
            lemma_paired(keys_of(entries@), values_of(entries@));
        }
        while i > 0
            invariant
                i <= entries@.len(),
                ordering::strictly_ordered(keys_of(entries@)),
                forall|k: int|
                    i <= k < entries@.len() ==> other@.dom().contains(
                        #[trigger] keys_of(entries@)[k],
                    ),
                paired(keys_of(entries@), values_of(entries@)).restrict(other@.dom())
                    == start.restrict(other@.dom()),
            decreases i,
        {
            i = i - 1;
            let ghost keys = keys_of(entries@);
            let ghost values = values_of(entries@);
            assert(keys[i as int] == entries@[i as int].0@);
            if !other.contains_key(entries[i].0.as_str()) {
                entries.remove(i);
                proof {
                    assert(keys_of(entries@) =~= keys.remove(i as int));
                    assert(values_of(entries@) =~= values.remove(i as int));
                    lemma_paired_remove(keys, values, i as int);
                    assert(paired(keys, values).remove(keys[i as int]).restrict(other@.dom())
                        =~= paired(keys, values).restrict(other@.dom()));
                }
            }
        }
        proof {
            let keys = keys_of(entries@);
            let values = values_of(entries@);
            lemma_paired(keys, values);
            assert(paired(keys, values).restrict(other@.dom()) =~= paired(keys, values));
        }
        self.entries = entries;
    }
}

proof fn lemma_absent(keys: Seq<Seq<char>>, key: Seq<char>, at: int)
    requires
        splits_at(keys, key, at),
    ensures
        !keys.contains(key),
{
    ordering::lemma_before_irreflexive(key);
}

proof fn lemma_insert_strictly_ordered(keys: Seq<Seq<char>>, key: Seq<char>, at: int)
    requires
        ordering::strictly_ordered(keys),
        splits_at(keys, key, at),
    ensures
        ordering::strictly_ordered(keys.insert(at, key)),
{
    let res = keys.insert(at, key);
    assert forall|i: int, j: int| 0 <= i < j < res.len() implies ordering::before(
        #[trigger] res[i],
        #[trigger] res[j],
    ) by {
        if i == at {
            assert(ordering::before(key, keys[j - 1]));
        } else if j == at {
            assert(ordering::before(keys[i], key));
        } else {
            let p = if i < at { i } else { i - 1 };
            let q = if j < at { j } else { j - 1 };
            assert(ordering::before(keys[p], keys[q]));
        }
    }
}

proof fn lemma_paired_insert<V>(
    keys: Seq<Seq<char>>,
    values: Seq<V>,
    key: Seq<char>,
    value: V,
    at: int,
)
    requires
        keys.len() == values.len(),
        0 <= at <= keys.len(),
        ordering::strictly_ordered(keys),
        ordering::strictly_ordered(keys.insert(at, key)),
    ensures
        paired(keys.insert(at, key), values.insert(at, value)) == paired(keys, values).insert(
            key,
            value,
        ),
{
    let new_keys = keys.insert(at, key);
    let new_values = values.insert(at, value);
    let left = paired(new_keys, new_values);
    let right = paired(keys, values).insert(key, value);
    lemma_paired(keys, values);
    lemma_paired(new_keys, new_values);
    assert(new_keys[at] == key);
    assert forall|k: Seq<char>| left.dom().contains(k) == right.dom().contains(k) by {
        if left.dom().contains(k) {
            let i = choose|i: int| 0 <= i < new_keys.len() && new_keys[i] == k;
            if i != at {
                let p = if i < at { i } else { i - 1 };
                assert(keys[p] == k);
            }
        }
        if right.dom().contains(k) && k != key {
            let i = choose|i: int| 0 <= i < keys.len() && keys[i] == k;
            let p = if i < at { i } else { i + 1 };
            assert(new_keys[p] == k);
        }
    }
    assert forall|k: Seq<char>| left.dom().contains(k) implies left[k] == right[k] by {
        let i = choose|i: int| 0 <= i < new_keys.len() && new_keys[i] == k;
        if i != at {
            let p = if i < at { i } else { i - 1 };
            assert(keys[p] == k);
            assert(new_keys[i] != new_keys[at]) by {
                ordering::lemma_before_irreflexive(key);
                assert(ordering::before(new_keys[i], new_keys[at])
                    || ordering::before(new_keys[at], new_keys[i]));
            }
        }
    }
    assert(left =~= right);
}

proof fn lemma_paired_remove<V>(keys: Seq<Seq<char>>, values: Seq<V>, at: int)
    requires
        keys.len() == values.len(),
        0 <= at < keys.len(),
        ordering::strictly_ordered(keys),
    ensures
        ordering::strictly_ordered(keys.remove(at)),
        paired(keys.remove(at), values.remove(at)) == paired(keys, values).remove(keys[at]),
{
    let new_keys = keys.remove(at);
    let new_values = values.remove(at);
    let key = keys[at];
    assert(new_keys.insert(at, key) =~= keys);
    assert(new_values.insert(at, values[at]) =~= values);
    assert forall|i: int, j: int| 0 <= i < j < new_keys.len() implies ordering::before(
        #[trigger] new_keys[i],
        #[trigger] new_keys[j],
    ) by {
        let p = if i < at { i } else { i + 1 };
        let q = if j < at { j } else { j + 1 };
        assert(ordering::before(keys[p], keys[q]));
    }
    lemma_paired_insert(new_keys, new_values, key, values[at], at);
    lemma_paired(new_keys, new_values);
    assert(!paired(new_keys, new_values).dom().contains(key)) by {
        if paired(new_keys, new_values).dom().contains(key) {
            let i = choose|i: int| 0 <= i < new_keys.len() && new_keys[i] == key;
            let p = if i < at { i } else { i + 1 };
            ordering::lemma_before_irreflexive(key);
            assert(ordering::before(keys[p], keys[at]) || ordering::before(
                keys[at],
                keys[p],
            ));
        }
    }
    assert(paired(keys, values).remove(key) =~= paired(new_keys, new_values));
}

impl<V: Clone> Clone for NameMap<V> {
    fn clone(&self) -> (res: Self)
        ensures
            res.keys() == self.keys(),
            res.values().len() == self.values().len(),
            forall|i: int|
                0 <= i < self.values().len() ==> cloned::<V>(
                    #[trigger] self.values()[i],
                    res.values()[i],
                ),
    {
        proof {
            use_type_invariant(self);
        }
        let mut entries: Vec<(String, V)> = Vec::new();
        let mut i: usize = 0;
        while i < self.entries.len()
            invariant
                i <= self.entries@.len(),
                entries@.len() == i,
                forall|k: int|
                    0 <= k < i ==> (#[trigger] entries@[k]).0@ == self.entries@[k].0@ && cloned::<V>(
                        self.entries@[k].1,
                        entries@[k].1,
                    ),
            decreases self.entries@.len() - i,
        {
            entries.push((self.entries[i].0.clone(), self.entries[i].1.clone()));
            i = i + 1;
        }
        assert(keys_of(entries@) =~= keys_of(self.entries@));
        NameMap { entries }
    }
}

} // verus!
