//! The keyed store: a map from text keys to records, each filed under its own
//! key, that hands its entries out in ascending order of key.

use vstd::prelude::*;
use crate::order::{
    ascending,
    compare_keys,
    key_lt,
    lemma_key_lt_irreflexive,
    lemma_key_lt_transitive,
    KeyOrder,
};

verus! {

/// A value that a store can keep: it names the key under which it is filed,
/// and it can be copied.
pub trait Record: View + Sized {
    /// The key under which a record of the given content is filed.
    spec fn key_of(content: Self::V) -> Seq<char>;

    /// The key under which this record is filed.
    fn key(&self) -> (key: String)
        ensures
            key@ == Self::key_of(self@),
    ;

    /// A copy of this record.
    fn duplicate(&self) -> (copy: Self)
        ensures
            copy@ == self@,
    ;
}

/// Every record of `map` is filed under its own key.
pub open spec fn keyed<V: Record>(map: Map<Seq<char>, V::V>) -> bool {
    forall|k: Seq<char>| map.contains_key(k) ==> V::key_of(#[trigger] map[k]) == k
}

/// The map that a list of keys and a list of values of the same length stand
/// for: each key is bound to the value at its position.
pub open spec fn map_of<V>(keys: Seq<Seq<char>>, values: Seq<V>) -> Map<Seq<char>, V> {
    Map::new(|k: Seq<char>| keys.contains(k), |k: Seq<char>| values[keys.index_of(k)])
}

/// `keys` and `values` list `map` entry by entry, in ascending order of key.
pub open spec fn lists<V>(map: Map<Seq<char>, V>, keys: Seq<Seq<char>>, values: Seq<V>) -> bool {
    &&& keys.len() == values.len()
    &&& ascending(keys)
    &&& forall|k: Seq<char>| map.contains_key(k) <==> keys.contains(k)
    &&& forall|i: int| 0 <= i < keys.len() ==> map[#[trigger] keys[i]] == values[i]
}

/// In an ascending list every key stands at one position only.
pub proof fn lemma_ascending_positions(keys: Seq<Seq<char>>, i: int, j: int)
    requires
        ascending(keys),
        0 <= i < keys.len(),
        0 <= j < keys.len(),
        keys[i] == keys[j],
    ensures
        i == j,
{
    lemma_key_lt_irreflexive(keys[i]);
}

/// An ascending list of keys and a list of values of the same length list
/// the map they stand for.
pub proof fn lemma_map_of_lists<V>(keys: Seq<Seq<char>>, values: Seq<V>)
    requires
        keys.len() == values.len(),
        ascending(keys),
    ensures
        lists(map_of(keys, values), keys, values),
{
    assert forall|i: int| 0 <= i < keys.len() implies map_of(keys, values)[#[trigger] keys[i]]
        == values[i] by {
        lemma_ascending_positions(keys, i, keys.index_of(keys[i]));
    }
}

/// A map has as many entries as any list of it has keys.
pub proof fn lemma_lists_len<V>(map: Map<Seq<char>, V>, keys: Seq<Seq<char>>, values: Seq<V>)
    requires
        lists(map, keys, values),
    ensures
        map.dom().finite(),
        map.dom().len() == keys.len(),
{
    assert(map.dom() =~= keys.to_set());
    vstd::seq_lib::seq_to_set_is_finite(keys);
    assert(keys.no_duplicates()) by {
        assert forall|i: int, j: int|
            0 <= i < keys.len() && 0 <= j < keys.len() && i != j implies keys[i] != keys[j] by {
            if keys[i] == keys[j] {
                lemma_ascending_positions(keys, i, j);
            }
        }
    }
    keys.unique_seq_to_set();
}

/// Two lists of one map hold the same key at every position.
proof fn lemma_lists_same_key<V>(
    map: Map<Seq<char>, V>,
    keys: Seq<Seq<char>>,
    values: Seq<V>,
    other_keys: Seq<Seq<char>>,
    other_values: Seq<V>,
    at: int,
)
    requires
        lists(map, keys, values),
        lists(map, other_keys, other_values),
        keys.len() == other_keys.len(),
        0 <= at < keys.len(),
    ensures
        keys[at] == other_keys[at],
    decreases at,
{
    assert forall|j: int| 0 <= j < at implies keys[j] == other_keys[j] by {
        lemma_lists_same_key(map, keys, values, other_keys, other_values, j);
    }
    assert(keys.contains(keys[at]));
    assert(map.contains_key(keys[at]));
    assert(other_keys.contains(keys[at]));
    assert(other_keys.contains(other_keys[at]));
    assert(map.contains_key(other_keys[at]));
    assert(keys.contains(other_keys[at]));
    let p = other_keys.index_of(keys[at]);
    let q = keys.index_of(other_keys[at]);
    if p < at {
        lemma_ascending_positions(keys, p, at);
    }
    if q < at {
        lemma_ascending_positions(other_keys, q, at);
    }
    if p > at {
        // other_keys[at] comes before other_keys[p], which is keys[at]; and
        // keys[at] comes before keys[q], which is other_keys[at], unless q is at
        if q > at {
            lemma_key_lt_transitive(other_keys[at], keys[at], keys[q]);
        }
        lemma_key_lt_irreflexive(other_keys[at]);
    }
}

/// A map is listed in one way only: its keys in ascending order, and the
/// value of each key at the position of the key.
pub proof fn lemma_lists_unique<V>(
    map: Map<Seq<char>, V>,
    keys: Seq<Seq<char>>,
    values: Seq<V>,
    other_keys: Seq<Seq<char>>,
    other_values: Seq<V>,
)
    requires
        lists(map, keys, values),
        lists(map, other_keys, other_values),
    ensures
        keys == other_keys,
        values == other_values,
{
    lemma_lists_len(map, keys, values);
    lemma_lists_len(map, other_keys, other_values);
    assert forall|i: int| 0 <= i < keys.len() implies keys[i] == other_keys[i] by {
        lemma_lists_same_key(map, keys, values, other_keys, other_values, i);
    }
    assert(keys =~= other_keys);
    assert forall|i: int| 0 <= i < values.len() implies values[i] == other_values[i] by {
        assert(map[keys[i]] == values[i]);
        assert(map[other_keys[i]] == other_values[i]);
    }
    assert(values =~= other_values);
}

/// A record that was put into a store is read back from it under its key as
/// it was put, whatever the store held before.
pub proof fn lemma_put_then_get<V: Record>(store: Map<Seq<char>, V::V>, record: V::V)
    ensures
        store.insert(V::key_of(record), record).contains_key(V::key_of(record)),
        store.insert(V::key_of(record), record)[V::key_of(record)] == record,
{
}

/// A new key put at the one position that keeps the list ascending binds
/// that key and leaves the other entries as they were.
proof fn lemma_insert_entry<V>(
    keys: Seq<Seq<char>>,
    values: Seq<V>,
    at: int,
    key: Seq<char>,
    value: V,
)
    requires
        keys.len() == values.len(),
        ascending(keys),
        0 <= at <= keys.len(),
        forall|i: int| 0 <= i < at ==> key_lt(keys[i], key),
        forall|i: int| at <= i < keys.len() ==> key_lt(key, keys[i]),
    ensures
        ascending(keys.insert(at, key)),
        map_of(keys.insert(at, key), values.insert(at, value)) == map_of(keys, values).insert(
            key,
            value,
        ),
{
    let new_keys = keys.insert(at, key);
    let new_values = values.insert(at, value);
    assert forall|i: int, j: int| 0 <= i < j < new_keys.len() implies key_lt(
        new_keys[i],
        new_keys[j],
    ) by {
        // new_keys[i] is keys[i] before `at` and keys[i - 1] after it
    }
    lemma_map_of_lists(keys, values);
    lemma_map_of_lists(new_keys, new_values);
    let old_map = map_of(keys, values);
    let new_map = map_of(new_keys, new_values);
    assert forall|k: Seq<char>| new_map.contains_key(k) <==> old_map.insert(
        key,
        value,
    ).contains_key(k) by {
        if new_keys.contains(k) {
            let i = new_keys.index_of(k);
            if i < at {
                assert(keys[i] == k);
            } else if i > at {
                assert(keys[i - 1] == k);
            }
        }
        if keys.contains(k) {
            let i = keys.index_of(k);
            if i < at {
                assert(new_keys[i] == k);
            } else {
                assert(new_keys[i + 1] == k);
            }
        }
        if k == key {
            assert(new_keys[at] == k);
        }
    }
    assert forall|k: Seq<char>| new_map.contains_key(k) implies new_map[k] == old_map.insert(
        key,
        value,
    )[k] by {
        let i = new_keys.index_of(k);
        assert(new_map[new_keys[i]] == new_values[i]);
        if i < at {
            assert(old_map[keys[i]] == values[i]);
            lemma_key_lt_irreflexive(key);
        } else if i > at {
            assert(old_map[keys[i - 1]] == values[i - 1]);
            lemma_key_lt_irreflexive(key);
        }
    }
    assert(new_map =~= old_map.insert(key, value));
}

/// A new value put at the position of its key rebinds that key and leaves the
/// other entries as they were.
proof fn lemma_update_entry<V>(keys: Seq<Seq<char>>, values: Seq<V>, at: int, value: V)
    requires
        keys.len() == values.len(),
        ascending(keys),
        0 <= at < keys.len(),
    ensures
        map_of(keys, values.update(at, value)) == map_of(keys, values).insert(keys[at], value),
{
    let new_values = values.update(at, value);
    lemma_map_of_lists(keys, values);
    lemma_map_of_lists(keys, new_values);
    let old_map = map_of(keys, values);
    let new_map = map_of(keys, new_values);
    assert(keys.contains(keys[at]));
    assert forall|k: Seq<char>| new_map.contains_key(k) implies new_map[k] == old_map.insert(
        keys[at],
        value,
    )[k] by {
        let i = keys.index_of(k);
        assert(new_map[keys[i]] == new_values[i]);
        assert(old_map[keys[i]] == values[i]);
        if k == keys[at] {
            lemma_ascending_positions(keys, i, at);
        }
    }
    assert(new_map =~= old_map.insert(keys[at], value));
}

/// A store of records of type `V`, each under its own key, in ascending order
/// of key.
pub struct MapIndex<V: Record> {
    entries: Vec<(String, V)>,
}

impl<V: Record> MapIndex<V> {
    #[verifier::type_invariant]
    spec fn ordered(&self) -> bool {
        &&& ascending(self.spec_keys())
        &&& forall|i: int|
            0 <= i < self.entries@.len() ==> self.entries@[i].0@ == V::key_of(
                #[trigger] self.entries@[i].1@,
            )
    }

    /// The keys of the store in ascending order.
    pub closed spec fn spec_keys(&self) -> Seq<Seq<char>> {
        Seq::new(self.entries@.len(), |i: int| self.entries@[i].0@)
    }

    /// The content of the records in ascending order of their keys.
    pub closed spec fn spec_values(&self) -> Seq<V::V> {
        Seq::new(self.entries@.len(), |i: int| self.entries@[i].1@)
    }

    /// The store as a map from keys to the content of the records.
    pub closed spec fn view(&self) -> Map<Seq<char>, V::V> {
        map_of(self.spec_keys(), self.spec_values())
    }

    /// What holds of every store: `spec_keys` and `spec_values` list it, and
    /// every record is filed under its own key.
    pub open spec fn well_formed(&self) -> bool {
        &&& lists(self@, self.spec_keys(), self.spec_values())
        &&& keyed::<V>(self@)
        &&& forall|i: int|
            0 <= i < self.spec_keys().len() ==> V::key_of(#[trigger] self.spec_values()[i])
                == self.spec_keys()[i]
        &&& self@.dom().finite()
        &&& self@.dom().len() == self.spec_keys().len()
    }

    /// Brings the facts of `well_formed` into a function that holds a store.
    proof fn lemma_well_formed(&self)
        requires
            self.ordered(),
        ensures
            self.well_formed(),
    {
        let keys = self.spec_keys();
        let values = self.spec_values();
        lemma_map_of_lists(keys, values);
        lemma_lists_len(self@, keys, values);
        assert forall|k: Seq<char>| self@.contains_key(k) implies V::key_of(#[trigger] self@[k])
            == k by {
            let i = keys.index_of(k);
            assert(self@[keys[i]] == values[i]);
            assert(values[i] == self.entries@[i].1@);
        }
    }

    /// An empty store.
    pub fn new() -> (index: Self)
        ensures
            index@ == Map::<Seq<char>, V::V>::empty(),
            index.well_formed(),
    {
        let index = MapIndex { entries: Vec::new() };
        proof {
            index.lemma_well_formed();
            assert(index@ =~= Map::<Seq<char>, V::V>::empty());
        }
        index
    }

    /// The number of records.
    pub fn len(&self) -> (n: usize)
        ensures
            n == self@.dom().len(),
            self.well_formed(),
    {
        proof {
            use_type_invariant(self);
            self.lemma_well_formed();
        }
        self.entries.len()
    }

    /// Whether the store holds no record.
    pub fn is_empty(&self) -> (empty: bool)
        ensures
            empty == (self@ == Map::<Seq<char>, V::V>::empty()),
            self.well_formed(),
    {
        proof {
            use_type_invariant(self);
            self.lemma_well_formed();
            if self.entries@.len() == 0 {
                assert(self@ =~= Map::<Seq<char>, V::V>::empty());
            } else {
                assert(self@.contains_key(self.spec_keys()[0]));
            }
        }
        self.entries.len() == 0
    }

    /// Where `key` stands, or where it would have to be put.
    fn find(&self, key: &str) -> (place: (usize, bool))
        ensures
            place.0 <= self.spec_keys().len(),
            place.1 ==> place.0 < self.spec_keys().len() && self.spec_keys()[place.0 as int]
                == key@,
            !place.1 ==> forall|i: int| 0 <= i < place.0 ==> key_lt(self.spec_keys()[i], key@),
            !place.1 ==> forall|i: int|
                place.0 <= i < self.spec_keys().len() ==> key_lt(key@, self.spec_keys()[i]),
    {
        proof {
            use_type_invariant(self);
        }
        let ghost keys = self.spec_keys();
        let mut low: usize = 0;
        let mut high: usize = self.entries.len();
        while low < high
            invariant
                low <= high <= keys.len(),
                keys == self.spec_keys(),
                ascending(keys),
                forall|i: int| 0 <= i < low ==> key_lt(keys[i], key@),
                forall|i: int| high <= i < keys.len() ==> key_lt(key@, keys[i]),
            decreases high - low,
        {
            let middle = low + (high - low) / 2;
            assert(keys[middle as int] == self.entries@[middle as int].0@);
            match compare_keys(self.entries[middle].0.as_str(), key) {
                KeyOrder::Before => {
                    assert forall|i: int| 0 <= i < middle + 1 implies key_lt(keys[i], key@) by {
                        if i < middle {
                            lemma_key_lt_transitive(keys[i], keys[middle as int], key@);
                        }
                    }
                    low = middle + 1;
                },
                KeyOrder::Same => {
                    return (middle, true);
                },
                KeyOrder::After => {
                    assert forall|i: int| middle <= i < keys.len() implies key_lt(
                        key@,
                        keys[i],
                    ) by {
                        if middle < i {
                            lemma_key_lt_transitive(key@, keys[middle as int], keys[i]);
                        }
                    }
                    high = middle;
                },
            }
        }
        (low, false)
    }

    /// A copy of the record filed under `key`, if there is one.
    pub fn get(&self, key: &str) -> (value: Option<V>)
        ensures
            value is Some <==> self@.contains_key(key@),
            value matches Some(v) ==> v@ == self@[key@] && V::key_of(v@) == key@,
    {
        proof {
            use_type_invariant(self);
            self.lemma_well_formed();
        }
        let (at, found) = self.find(key);
        if found {
            assert(self.spec_keys().contains(key@));
            assert(self@[self.spec_keys()[at as int]] == self.spec_values()[at as int]);
            Some(self.entries[at].1.duplicate())
        } else {
            proof {
                if self.spec_keys().contains(key@) {
                    let i = self.spec_keys().index_of(key@);
                    lemma_key_lt_irreflexive(key@);
                }
            }
            None
        }
    }

    /// Whether a record is filed under `key`.
    pub fn contains(&self, key: &str) -> (found: bool)
        ensures
            found == self@.contains_key(key@),
    {
        let (at, found) = self.find(key);
        proof {
            use_type_invariant(self);
            if found {
                assert(self.spec_keys().contains(key@));
            } else if self.spec_keys().contains(key@) {
                let i = self.spec_keys().index_of(key@);
                lemma_key_lt_irreflexive(key@);
            }
        }
        found
    }

    /// Files `value` under its key, in place of the record filed there
    /// before, if there was one.
    pub fn put(&mut self, value: V)
        ensures
            final(self)@ == old(self)@.insert(V::key_of(value@), value@),
            final(self).well_formed(),
    {
        proof {
            use_type_invariant(&*self);
        }
        let key = value.key();
        let (at, found) = self.find(key.as_str());
        let ghost keys = self.spec_keys();
        let ghost values = self.spec_values();
        let ghost before = self.entries@;
        let mut entries: Vec<(String, V)> = Vec::new();
        core::mem::swap(&mut self.entries, &mut entries);
        if found {
            entries.set(at, (key, value));
            proof {
                lemma_update_entry(keys, values, at as int, value@);
            }
        } else {
            entries.insert(at, (key, value));
            proof {
                lemma_insert_entry(keys, values, at as int, key@, value@);
            }
        }
        let ghost new_keys = Seq::new(entries@.len(), |i: int| entries@[i].0@);
        let ghost new_values = Seq::new(entries@.len(), |i: int| entries@[i].1@);
        proof {
            if found {
                assert(new_keys =~= keys);
                assert(new_values =~= values.update(at as int, value@));
                assert forall|i: int| 0 <= i < entries@.len() implies entries@[i].0@
                    == V::key_of(#[trigger] entries@[i].1@) by {
                    if i != at {
                        assert(entries@[i] == before[i]);
                    }
                }
            } else {
                assert(new_keys =~= keys.insert(at as int, key@));
                assert(new_values =~= values.insert(at as int, value@));
                assert forall|i: int| 0 <= i < entries@.len() implies entries@[i].0@
                    == V::key_of(#[trigger] entries@[i].1@) by {
                    if i < at {
                        assert(entries@[i] == before[i]);
                    } else if i > at {
                        assert(entries@[i] == before[i - 1]);
                    }
                }
            }
        }
        core::mem::swap(&mut self.entries, &mut entries);
        proof {
            self.lemma_well_formed();
        }
    }

    /// The keys in ascending order.
    pub fn keys(&self) -> (keys: Vec<String>)
        ensures
            keys@.len() == self.spec_keys().len(),
            forall|i: int| 0 <= i < keys@.len() ==> keys@[i]@ == self.spec_keys()[i],
            self.well_formed(),
    {
        proof {
            use_type_invariant(self);
            self.lemma_well_formed();
        }
        let mut keys: Vec<String> = Vec::new();
        let mut i: usize = 0;
        while i < self.entries.len()
            invariant
                i <= self.entries@.len(),
                keys@.len() == i,
                forall|k: int| 0 <= k < i ==> keys@[k]@ == self.spec_keys()[k],
            decreases self.entries@.len() - i,
        {
            keys.push(self.entries[i].0.clone());
            i += 1;
        }
        keys
    }

    /// Copies of the records in ascending order of their keys.
    pub fn values(&self) -> (values: Vec<V>)
        ensures
            values@.len() == self.spec_values().len(),
            forall|i: int| 0 <= i < values@.len() ==> values@[i]@ == self.spec_values()[i],
            self.well_formed(),
    {
        proof {
            use_type_invariant(self);
            self.lemma_well_formed();
        }
        let mut values: Vec<V> = Vec::new();
        let mut i: usize = 0;
        while i < self.entries.len()
            invariant
                i <= self.entries@.len(),
                values@.len() == i,
                forall|k: int| 0 <= k < i ==> values@[k]@ == self.spec_values()[k],
            decreases self.entries@.len() - i,
        {
            values.push(self.entries[i].1.duplicate());
            i += 1;
        }
        values
    }
}

impl<V: Record> Clone for MapIndex<V> {
    fn clone(&self) -> (index: Self)
        ensures
            index@ == self@,
            index.spec_keys() == self.spec_keys(),
            index.spec_values() == self.spec_values(),
            index.well_formed(),
    {
        proof {
            use_type_invariant(self);
        }
        let mut entries: Vec<(String, V)> = Vec::new();
        let mut i: usize = 0;
        while i < self.entries.len()
            invariant
                i <= self.entries@.len(),
                entries@.len() == i,
                forall|k: int|
                    0 <= k < i ==> entries@[k].0@ == self.entries@[k].0@ && entries@[k].1@
                        == self.entries@[k].1@,
            decreases self.entries@.len() - i,
        {
            entries.push((self.entries[i].0.clone(), self.entries[i].1.duplicate()));
            i += 1;
        }
        let ghost keys = Seq::new(entries@.len(), |i: int| entries@[i].0@);
        let ghost values = Seq::new(entries@.len(), |i: int| entries@[i].1@);
        assert(keys =~= self.spec_keys());
        assert(values =~= self.spec_values());
        let index = MapIndex { entries };
        proof {
            index.lemma_well_formed();
        }
        index
    }
}

} // verus!
