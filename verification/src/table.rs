//! A table from texts to values that keeps the order in which keys came in. No key is in
//! it twice.

use crate::json::distinct_keys;
use crate::text::same_text;
use crate::views::viewed;
use vstd::prelude::*;

verus! {

/// No two entries have the same key.
pub open spec fn keys_differ<V>(entries: Seq<(Seq<char>, V)>) -> bool {
    forall|i: int, j: int|
        0 <= i < j < entries.len() ==> (#[trigger] entries[i]).0 != (#[trigger] entries[j]).0
}

/// The value under `key`: that of the first entry with that key.
pub open spec fn lookup<V>(entries: Seq<(Seq<char>, V)>, key: Seq<char>) -> Option<V>
    decreases entries.len(),
{
    if entries.len() == 0 {
        None
    } else if entries[0].0 == key {
        Some(entries[0].1)
    } else {
        lookup(entries.drop_first(), key)
    }
}

/// The entries with `value` under `key`: in the place of the value that was there, or at
/// the end.
pub open spec fn put<V>(entries: Seq<(Seq<char>, V)>, key: Seq<char>, value: V) -> Seq<
    (Seq<char>, V),
>
    decreases entries.len(),
{
    if entries.len() == 0 {
        seq![(key, value)]
    } else if entries[0].0 == key {
        seq![(key, value)] + entries.drop_first()
    } else {
        seq![entries[0]] + put(entries.drop_first(), key, value)
    }
}

/// The entries without those under `key`, in their order.
pub open spec fn without<V>(entries: Seq<(Seq<char>, V)>, key: Seq<char>) -> Seq<(Seq<char>, V)>
    decreases entries.len(),
{
    if entries.len() == 0 {
        entries
    } else if entries[0].0 == key {
        without(entries.drop_first(), key)
    } else {
        seq![entries[0]] + without(entries.drop_first(), key)
    }
}

/// A value that was put under a key is found there, and the other keys are as before.
pub proof fn lemma_lookup_put<V>(
    entries: Seq<(Seq<char>, V)>,
    key: Seq<char>,
    value: V,
    other: Seq<char>,
)
    ensures
        lookup(put(entries, key, value), other) == if other == key {
            Some(value)
        } else {
            lookup(entries, other)
        },
    decreases entries.len(),
{
    let after = put(entries, key, value);
    if entries.len() == 0 {
        assert(after.drop_first() =~= entries);
    } else {
        let rest = entries.drop_first();
        lemma_lookup_put(rest, key, value, other);
        if entries[0].0 == key {
            assert(after.drop_first() =~= rest);
        } else {
            assert(after.drop_first() =~= put(rest, key, value));
        }
    }
}

/// Nothing is found under a key that was removed, and the other keys are as before.
pub proof fn lemma_lookup_without<V>(
    entries: Seq<(Seq<char>, V)>,
    key: Seq<char>,
    other: Seq<char>,
)
    ensures
        lookup(without(entries, key), other) == if other == key {
            None
        } else {
            lookup(entries, other)
        },
    decreases entries.len(),
{
    if entries.len() > 0 {
        let rest = entries.drop_first();
        lemma_lookup_without(rest, key, other);
        if entries[0].0 != key {
            assert(without(entries, key).drop_first() =~= without(rest, key));
        }
    }
}

/// Removing a key that holds nothing changes nothing.
pub proof fn lemma_without_absent<V>(entries: Seq<(Seq<char>, V)>, key: Seq<char>)
    requires
        lookup(entries, key) is None,
    ensures
        without(entries, key) == entries,
    decreases entries.len(),
{
    if entries.len() > 0 {
        lemma_without_absent(entries.drop_first(), key);
        assert(seq![entries[0]] + entries.drop_first() =~= entries);
    }
}

/// Removing a value that was put under a free key gives the entries back.
pub proof fn lemma_without_put<V>(entries: Seq<(Seq<char>, V)>, key: Seq<char>, value: V)
    requires
        lookup(entries, key) is None,
    ensures
        without(put(entries, key, value), key) == entries,
    decreases entries.len(),
{
    let after = put(entries, key, value);
    if entries.len() == 0 {
        assert(after.drop_first() =~= entries);
        assert(without(entries, key) == entries);
    } else {
        let rest = entries.drop_first();
        lemma_without_put(rest, key, value);
        assert(after.drop_first() =~= put(rest, key, value));
        assert(seq![entries[0]] + rest =~= entries);
    }
}

/// [`lookup`] and [`put`] in terms of the position of the first entry with the key.
pub proof fn lemma_at_position<V>(entries: Seq<(Seq<char>, V)>, key: Seq<char>, value: V, i: int)
    requires
        0 <= i <= entries.len(),
        i < entries.len() ==> entries[i].0 == key,
        forall|j: int| 0 <= j < i ==> (#[trigger] entries[j]).0 != key,
    ensures
        i < entries.len() ==> lookup(entries, key) == Some(entries[i].1) && put(entries, key, value)
            == entries.update(i, (key, value)),
        i == entries.len() ==> lookup(entries, key) is None && put(entries, key, value)
            == entries.push((key, value)),
    decreases entries.len(),
{
    if entries.len() == 0 {
        assert(put(entries, key, value) =~= entries.push((key, value)));
    } else if entries[0].0 == key {
        assert(put(entries, key, value) =~= entries.update(0, (key, value)));
    } else {
        let rest = entries.drop_first();
        assert forall|j: int| 0 <= j < i - 1 implies (#[trigger] rest[j]).0 != key by {
            assert(rest[j] == entries[j + 1]);
        }
        lemma_at_position(rest, key, value, i - 1);
        if i < entries.len() {
            assert(put(entries, key, value) =~= entries.update(i, (key, value)));
        } else {
            assert(put(entries, key, value) =~= entries.push((key, value)));
        }
    }
}

/// [`without`] in terms of the position of the one entry with the key.
proof fn lemma_without_position<V>(entries: Seq<(Seq<char>, V)>, key: Seq<char>, i: int)
    requires
        keys_differ(entries),
        0 <= i < entries.len(),
        entries[i].0 == key,
    ensures
        without(entries, key) == entries.remove(i),
    decreases entries.len(),
{
    let rest = entries.drop_first();
    assert forall|j: int, k: int| 0 <= j < k < rest.len() implies (#[trigger] rest[j]).0 != (
    #[trigger] rest[k]).0 by {
        assert(rest[j] == entries[j + 1]);
        assert(rest[k] == entries[k + 1]);
    }
    if i == 0 {
        assert forall|j: int| 0 <= j < rest.len() implies (#[trigger] rest[j]).0 != key by {
            assert(rest[j] == entries[j + 1]);
        }
        lemma_at_position(rest, key, arbitrary(), rest.len() as int);
        lemma_without_absent(rest, key);
        assert(entries.remove(0) =~= rest);
    } else {
        assert(entries[0].0 != entries[i].0);
        lemma_without_position(rest, key, i - 1);
        assert(seq![entries[0]] + rest.remove(i - 1) =~= entries.remove(i));
    }
}

/// A table from texts to values.
pub struct Table<V> {
    entries: Vec<(String, V)>,
}

impl<V> Table<V> {
    /// No key is in the table twice.
    #[verifier::type_invariant]
    spec fn no_key_twice(self) -> bool {
        distinct_keys(self.entries@)
    }
}

impl<V: View> View for Table<V> {
    type V = Seq<(Seq<char>, V::V)>;

    closed spec fn view(&self) -> Seq<(Seq<char>, V::V)> {
        self.entries@.map_values(|entry: (String, V)| (entry.0@, entry.1@))
    }
}

impl<V: View> Table<V> {
    /// The table without entries.
    pub fn new() -> (table: Table<V>)
        ensures
            table@ == Seq::<(Seq<char>, V::V)>::empty(),
    {
        let table = Table { entries: Vec::new() };
        assert(table@ =~= Seq::<(Seq<char>, V::V)>::empty());
        table
    }

    /// How many entries there are.
    pub fn len(&self) -> (count: usize)
        ensures
            count == self@.len(),
            keys_differ(self@),
    {
        proof {
            use_type_invariant(self);
            self.lemma_keys_differ();
        }
        self.entries.len()
    }

    /// The value that came in after `i` others.
    pub fn value_at(&self, i: usize) -> (value: &V)
        requires
            i < self@.len(),
        ensures
            value@ == self@[i as int].1,
    {
        &self.entries[i].1
    }

    /// What the invariant means of the entries.
    proof fn lemma_keys_differ(self)
        requires
            distinct_keys(self.entries@),
        ensures
            keys_differ(self@),
    {
        assert forall|i: int, j: int| 0 <= i < j < self@.len() implies (#[trigger] self@[i]).0 != (
        #[trigger] self@[j]).0 by {
            assert(self.entries@[i].0@ != self.entries@[j].0@);
        }
    }

    /// The position of the first entry under `key`, or the number of entries.
    fn position(&self, key: &str) -> (i: usize)
        ensures
            i <= self.entries.len(),
            i < self.entries.len() ==> self@[i as int].0 == key@,
            forall|j: int| 0 <= j < i ==> (#[trigger] self@[j]).0 != key@,
    {
        let mut i: usize = 0;
        while i < self.entries.len()
            invariant
                i <= self.entries.len(),
                forall|j: int| 0 <= j < i ==> (#[trigger] self@[j]).0 != key@,
            decreases self.entries.len() - i,
        {
            if same_text(&self.entries[i].0, key) {
                return i;
            }
            i = i + 1;
        }
        i
    }

    /// The value under `key`.
    pub fn get(&self, key: &str) -> (value: Option<&V>)
        ensures
            match value {
                Some(value) => lookup(self@, key@) == Some(value@),
                None => lookup(self@, key@) is None,
            },
    {
        let i = self.position(key);
        proof {
            lemma_at_position(self@, key@, arbitrary(), i as int);
        }
        if i < self.entries.len() {
            Some(&self.entries[i].1)
        } else {
            None
        }
    }

    /// Puts `value` under `key`.
    pub fn insert(&mut self, key: String, value: V)
        ensures
            final(self)@ == put(old(self)@, key@, value@),
            keys_differ(final(self)@),
    {
        let i = self.position(&key);
        let ghost before = self@;
        proof {
            use_type_invariant(&*self);
            lemma_at_position(before, key@, value@, i as int);
        }
        let mut entries: Vec<(String, V)> = Vec::new();
        std::mem::swap(&mut entries, &mut self.entries);
        let ghost all = entries@;
        assert forall|j: int| 0 <= j < i implies (#[trigger] all[j]).0@ != key@ by {
            assert(before[j].0 != key@);
        }
        if i < entries.len() {
            assert(before[i as int].0 == key@);
            entries.set(i, (key, value));
        } else {
            entries.push((key, value));
        }
        self.entries = entries;
        proof {
            self.lemma_keys_differ();
            if i < all.len() {
                assert(self@ =~= before.update(i as int, (key@, value@)));
            } else {
                assert(self@ =~= before.push((key@, value@)));
            }
        }
    }

    /// Removes what is under `key`, and hands it out.
    pub fn remove(&mut self, key: &str) -> (value: Option<V>)
        ensures
            viewed(value) == lookup(old(self)@, key@),
            final(self)@ == without(old(self)@, key@),
            keys_differ(final(self)@),
    {
        let i = self.position(key);
        let ghost before = self@;
        proof {
            use_type_invariant(&*self);
            self.lemma_keys_differ();
            lemma_at_position(before, key@, arbitrary(), i as int);
        }
        if i == self.entries.len() {
            proof {
                lemma_without_absent(before, key@);
            }
            return None;
        }
        let mut entries: Vec<(String, V)> = Vec::new();
        std::mem::swap(&mut entries, &mut self.entries);
        let (_, value) = entries.remove(i);
        self.entries = entries;
        proof {
            lemma_without_position(before, key@, i as int);
            assert(self@ =~= before.remove(i as int));
            self.lemma_keys_differ();
        }
        Some(value)
    }

    /// Removes every entry.
    pub fn clear(&mut self)
        ensures
            final(self)@ == Seq::<(Seq<char>, V::V)>::empty(),
    {
        self.entries = Vec::new();
        assert(self@ =~= Seq::<(Seq<char>, V::V)>::empty());
    }
}

} // verus!
