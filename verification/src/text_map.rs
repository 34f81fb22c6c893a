//! A map from texts to values that keeps its keys in ascending order.

use vstd::prelude::*;
use vstd::utf8::*;

use crate::order::{
    place,
    precedes_irreflexive,
    precedes_transitive,
    text_precedes,
    Placement,
};

verus! {

/// A map from texts to values. Every key occurs once and the keys stand in ascending order
/// of their bytes.
#[derive(Debug, PartialEq, Eq)]
pub struct TextMap<V> {
    entries: Vec<(String, V)>,
}

/// The keys of `entries`, in their order.
pub open spec fn keys_of<V>(entries: Seq<(String, V)>) -> Seq<Seq<char>> {
    entries.map_values(|entry: (String, V)| entry.0@)
}

/// Whether every key comes before all keys that stand behind it.
pub open spec fn ascending(keys: Seq<Seq<char>>) -> bool {
    forall|i: int, j: int|
        0 <= i < j < keys.len() ==> text_precedes(#[trigger] keys[i], #[trigger] keys[j])
}

/// The map that `entries` lists.
pub open spec fn map_of<V>(entries: Seq<(String, V)>) -> Map<Seq<char>, V> {
    Map::new(
        |key: Seq<char>| keys_of(entries).contains(key),
        |key: Seq<char>| entries[keys_of(entries).index_of(key)].1,
    )
}

proof fn ascending_keys_distinct(keys: Seq<Seq<char>>)
    requires
        ascending(keys),
    ensures
        keys.no_duplicates(),
{
    assert forall|i: int, j: int| 0 <= i < j < keys.len() implies keys[i] != keys[j] by {
        precedes_irreflexive(encode_utf8(keys[i]));
    }
}

proof fn entry_in_map<V>(entries: Seq<(String, V)>, i: int)
    requires
        ascending(keys_of(entries)),
        0 <= i < entries.len(),
    ensures
        map_of(entries).contains_key(entries[i].0@),
        map_of(entries)[entries[i].0@] == entries[i].1,
{
    let keys = keys_of(entries);
    ascending_keys_distinct(keys);
    assert(keys[i] == entries[i].0@);
    assert(keys.contains(keys[i]));
}

proof fn absent_between(keys: Seq<Seq<char>>, at: int, key: Seq<char>)
    requires
        0 <= at <= keys.len(),
        forall|i: int| 0 <= i < at ==> text_precedes(#[trigger] keys[i], key),
        forall|i: int| at <= i < keys.len() ==> text_precedes(key, #[trigger] keys[i]),
    ensures
        !keys.contains(key),
{
    precedes_irreflexive(encode_utf8(key));
}

proof fn inserted_over<V>(entries: Seq<(String, V)>, at: int, key: String, value: V)
    requires
        ascending(keys_of(entries)),
        0 <= at < entries.len(),
        entries[at].0@ == key@,
    ensures
        ascending(keys_of(entries.update(at, (key, value)))),
        map_of(entries.update(at, (key, value))) == map_of(entries).insert(key@, value),
{
    let after = entries.update(at, (key, value));
    assert(keys_of(after) =~= keys_of(entries));
    let keys = keys_of(entries);
    ascending_keys_distinct(keys);
    assert(keys[at] == key@);
    assert(keys.contains(key@));
    assert(map_of(after) =~= map_of(entries).insert(key@, value));
}

proof fn inserted_between<V>(entries: Seq<(String, V)>, at: int, key: String, value: V)
    requires
        ascending(keys_of(entries)),
        0 <= at <= entries.len(),
        forall|i: int| 0 <= i < at ==> text_precedes(#[trigger] keys_of(entries)[i], key@),
        forall|i: int|
            at <= i < entries.len() ==> text_precedes(key@, #[trigger] keys_of(entries)[i]),
    ensures
        ascending(keys_of(entries.insert(at, (key, value)))),
        map_of(entries.insert(at, (key, value))) == map_of(entries).insert(key@, value),
{
    let after = entries.insert(at, (key, value));
    let keys = keys_of(entries);
    let new_keys = keys_of(after);
    assert(new_keys =~= keys.insert(at, key@));
    assert(ascending(new_keys)) by {
        assert forall|i: int, j: int| 0 <= i < j < new_keys.len() implies text_precedes(
            #[trigger] new_keys[i],
            #[trigger] new_keys[j],
        ) by {
            let i0 = if i < at { i } else { i - 1 };
            let j0 = if j < at { j } else { j - 1 };
            if i != at {
                assert(new_keys[i] == keys[i0]);
            }
            if j != at {
                assert(new_keys[j] == keys[j0]);
            }
        }
    }
    ascending_keys_distinct(keys);
    ascending_keys_distinct(new_keys);
    let expected = map_of(entries).insert(key@, value);
    assert forall|k: Seq<char>| map_of(after).contains_key(k) == expected.contains_key(k) by {
        if expected.contains_key(k) {
            if k == key@ {
                assert(new_keys[at] == k);
            } else {
                let i = keys.index_of(k);
                assert(keys[i] == k);
                assert(new_keys[if i < at { i } else { i + 1 }] == k);
            }
        }
        if map_of(after).contains_key(k) && k != key@ {
            let i = new_keys.index_of(k);
            assert(new_keys[i] == k);
            assert(keys[if i < at { i } else { i - 1 }] == k);
        }
    }
    assert forall|k: Seq<char>| #[trigger] map_of(after).contains_key(k) implies map_of(after)[k]
        == expected[k] by {
        let i = new_keys.index_of(k);
        assert(new_keys[i] == k);
        if k == key@ {
            assert(new_keys[at] == k);
            assert(i == at);
        } else {
            let i0 = if i < at { i } else { i - 1 };
            assert(keys[i0] == k);
            assert(keys.index_of(k) == i0);
        }
    }
    assert(map_of(after) =~= expected);
}

impl<V> View for TextMap<V> {
    type V = Map<Seq<char>, V>;

    closed spec fn view(&self) -> Map<Seq<char>, V> {
        map_of(self.entries@)
    }
}

impl<V> TextMap<V> {
    #[verifier::type_invariant]
    spec fn sorted(self) -> bool {
        ascending(keys_of(self.entries@))
    }

    /// The keys in the order in which the map holds them.
    pub closed spec fn listed_keys(&self) -> Seq<Seq<char>> {
        keys_of(self.entries@)
    }

    /// A map without entries.
    pub fn new() -> (map: Self)
        ensures
            map@ == Map::<Seq<char>, V>::empty(),
    {
        let entries: Vec<(String, V)> = Vec::new();
        let map = TextMap { entries };
        assert(map@ =~= Map::<Seq<char>, V>::empty());
        map
    }

    /// The position of the first key that does not come before `key`, and whether it is `key`.
    fn locate(&self, key: &str) -> (found: (usize, bool))
        ensures
            found.0 <= self.entries@.len(),
            found.1 ==> found.0 < self.entries@.len() && self.entries@[found.0 as int].0@ == key@,
            !found.1 ==> !self@.contains_key(key@),
            forall|i: int|
                0 <= i < found.0 ==> text_precedes(#[trigger] keys_of(self.entries@)[i], key@),
            !found.1 ==> forall|i: int|
                found.0 <= i < self.entries@.len() ==> text_precedes(
                    key@,
                    #[trigger] keys_of(self.entries@)[i],
                ),
    {
        proof {
            use_type_invariant(self);
        }
        let ghost keys = keys_of(self.entries@);
        let mut i: usize = 0;
        while i < self.entries.len()
            invariant
                i <= self.entries@.len(),
                keys == keys_of(self.entries@),
                ascending(keys),
                forall|j: int| 0 <= j < i ==> text_precedes(#[trigger] keys[j], key@),
            decreases self.entries.len() - i,
        {
            assert(keys[i as int] == self.entries@[i as int].0@);
            match place(self.entries[i].0.as_str(), key) {
                Placement::Before => {
                    i += 1;
                },
                Placement::Same => {
                    return (i, true);
                },
                Placement::After => {
                    proof {
                        assert forall|j: int| i <= j < keys.len() implies text_precedes(
                            key@,
                            #[trigger] keys[j],
                        ) by {
                            if i < j {
                                precedes_transitive(
                                    encode_utf8(key@),
                                    encode_utf8(keys[i as int]),
                                    encode_utf8(keys[j]),
                                );
                            }
                        }
                        absent_between(keys, i as int, key@);
                    }
                    return (i, false);
                },
            }
        }
        proof {
            absent_between(keys, i as int, key@);
        }
        (i, false)
    }

    /// The value of `key`.
    pub fn get(&self, key: &str) -> (value: Option<&V>)
        ensures
            match value {
                Some(v) => self@.contains_key(key@) && *v == self@[key@],
                None => !self@.contains_key(key@),
            },
    {
        let (at, found) = self.locate(key);
        if found {
            proof {
                use_type_invariant(self);
                entry_in_map(self.entries@, at as int);
            }
            Some(&self.entries[at].1)
        } else {
            None
        }
    }

    /// Whether the map has no entry.
    pub fn is_empty(&self) -> (empty: bool)
        ensures
            empty == self@.is_empty(),
    {
        proof {
            use_type_invariant(self);
            if self.entries@.len() > 0 {
                entry_in_map(self.entries@, 0);
                assert(!self@.is_empty());
            } else {
                assert(self@.dom() =~= Set::<Seq<char>>::empty());
            }
        }
        self.entries.len() == 0
    }

    /// Gives `key` the value `value`, in place of the value it had, if any.
    pub fn insert(&mut self, key: String, value: V)
        ensures
            final(self)@ == old(self)@.insert(key@, value),
    {
        let (at, found) = self.locate(key.as_str());
        proof {
            use_type_invariant(&*self);
        }
        let mut entries: Vec<(String, V)> = Vec::new();
        std::mem::swap(&mut entries, &mut self.entries);
        let ghost before = entries@;
        if found {
            proof {
                inserted_over(before, at as int, key, value);
            }
            entries.set(at, (key, value));
        } else {
            proof {
                inserted_between(before, at as int, key, value);
            }
            entries.insert(at, (key, value));
        }
        self.entries = entries;
    }

    /// The keys, in ascending order.
    pub fn keys(&self) -> (keys: Vec<String>)
        ensures
            keys.deep_view() == self.listed_keys(),
            ascending(keys.deep_view()),
            forall|key: Seq<char>|
                #[trigger] keys.deep_view().contains(key) <==> self@.contains_key(key),
    {
        proof {
            use_type_invariant(self);
        }
        let mut keys: Vec<String> = Vec::new();
        let mut i: usize = 0;
        while i < self.entries.len()
            invariant
                i <= self.entries@.len(),
                keys.deep_view() == keys_of(self.entries@).take(i as int),
            decreases self.entries.len() - i,
        {
            let ghost before = keys.deep_view();
            keys.push(self.entries[i].0.clone());
            proof {
                assert(keys.deep_view() =~= before.push(self.entries@[i as int].0@));
                assert(keys_of(self.entries@).take(i + 1) =~= before.push(
                    self.entries@[i as int].0@,
                ));
            }
            i += 1;
        }
        proof {
            assert(keys_of(self.entries@).take(i as int) =~= keys_of(self.entries@));
        }
        keys
    }
}

/// Of two keys in ascending order, the first comes before the second by its text.
pub proof fn ascending_keys_stand_by_text(keys: Seq<Seq<char>>, i: int, j: int)
    requires
        ascending(keys),
        0 <= i < j < keys.len(),
    ensures
        text_precedes(keys[i], keys[j]),
{
}

} // verus!
