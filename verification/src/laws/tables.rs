//! What holds of tables: what is found in them, and that no key is ever in one twice.

use crate::json::JsonView;
use crate::question::{answer_id, question_answers};
use crate::stream::AnswerView;
use crate::table::{keys_differ, lemma_at_position, lookup, put, without};
use vstd::prelude::*;

verus! {

/// The entries after the first have different keys where all have.
proof fn lemma_rest_differs<V>(entries: Seq<(Seq<char>, V)>)
    requires
        entries.len() > 0,
        keys_differ(entries),
    ensures
        keys_differ(entries.drop_first()),
        forall|i: int|
            0 <= i < entries.drop_first().len() ==> (#[trigger] entries.drop_first()[i]).0
                != entries[0].0,
{
    let rest = entries.drop_first();
    assert forall|i: int, j: int| 0 <= i < j < rest.len() implies (#[trigger] rest[i]).0 != (
    #[trigger] rest[j]).0 by {
        assert(rest[i] == entries[i + 1]);
        assert(rest[j] == entries[j + 1]);
    }
    assert forall|i: int| 0 <= i < rest.len() implies (#[trigger] rest[i]).0 != entries[0].0 by {
        assert(rest[i] == entries[i + 1]);
    }
}

/// An entry in front of others whose keys differ from its own and from each other.
proof fn lemma_front_differs<V>(first: (Seq<char>, V), rest: Seq<(Seq<char>, V)>)
    requires
        keys_differ(rest),
        forall|i: int| 0 <= i < rest.len() ==> (#[trigger] rest[i]).0 != first.0,
    ensures
        keys_differ(seq![first] + rest),
{
    let all = seq![first] + rest;
    assert forall|i: int, j: int| 0 <= i < j < all.len() implies (#[trigger] all[i]).0 != (
    #[trigger] all[j]).0 by {
        assert(all[j] == rest[j - 1]);
        if i > 0 {
            assert(all[i] == rest[i - 1]);
        }
    }
}

/// Putting a value under a key adds no other entry.
pub proof fn lemma_put_entries<V>(entries: Seq<(Seq<char>, V)>, key: Seq<char>, value: V, i: int)
    requires
        0 <= i < put(entries, key, value).len(),
    ensures
        put(entries, key, value)[i] == (key, value) || entries.contains(
            put(entries, key, value)[i],
        ),
    decreases entries.len(),
{
    let after = put(entries, key, value);
    if entries.len() > 0 {
        let rest = entries.drop_first();
        if entries[0].0 == key {
            if i > 0 {
                assert(after[i] == entries[i]);
            }
        } else if i == 0 {
            assert(after[0] == entries[0]);
        } else {
            lemma_put_entries(rest, key, value, i - 1);
            let tail = put(rest, key, value);
            assert(after[i] == tail[i - 1]);
            if tail[i - 1] != (key, value) {
                let j = choose|j: int| 0 <= j < rest.len() && rest[j] == tail[i - 1];
                assert(entries[j + 1] == rest[j]);
            }
        }
    }
}

/// Removing a key adds no entry.
pub proof fn lemma_without_entries<V>(entries: Seq<(Seq<char>, V)>, key: Seq<char>, i: int)
    requires
        0 <= i < without(entries, key).len(),
    ensures
        entries.contains(without(entries, key)[i]),
    decreases entries.len(),
{
    let after = without(entries, key);
    let rest = entries.drop_first();
    let tail = without(rest, key);
    if entries[0].0 != key && i == 0 {
        assert(after[0] == entries[0]);
    } else {
        let k = if entries[0].0 == key {
            i
        } else {
            i - 1
        };
        assert(after[i] == tail[k]);
        lemma_without_entries(rest, key, k);
        let j = choose|j: int| 0 <= j < rest.len() && rest[j] == tail[k];
        assert(entries[j + 1] == rest[j]);
    }
}

/// Putting a value under a key keeps the keys distinct.
pub proof fn law_put_keeps_keys_distinct<V>(
    entries: Seq<(Seq<char>, V)>,
    key: Seq<char>,
    value: V,
)
    requires
        keys_differ(entries),
    ensures
        keys_differ(put(entries, key, value)),
    decreases entries.len(),
{
    if entries.len() > 0 {
        let rest = entries.drop_first();
        lemma_rest_differs(entries);
        if entries[0].0 == key {
            lemma_front_differs((key, value), rest);
        } else {
            law_put_keeps_keys_distinct(rest, key, value);
            let tail = put(rest, key, value);
            assert forall|i: int| 0 <= i < tail.len() implies (#[trigger] tail[i]).0
                != entries[0].0 by {
                lemma_put_entries(rest, key, value, i);
            }
            lemma_front_differs(entries[0], tail);
        }
    }
}

/// Removing a key keeps the keys distinct.
pub proof fn law_without_keeps_keys_distinct<V>(entries: Seq<(Seq<char>, V)>, key: Seq<char>)
    requires
        keys_differ(entries),
    ensures
        keys_differ(without(entries, key)),
    decreases entries.len(),
{
    if entries.len() > 0 {
        let rest = entries.drop_first();
        lemma_rest_differs(entries);
        law_without_keeps_keys_distinct(rest, key);
        if entries[0].0 != key {
            let tail = without(rest, key);
            assert forall|i: int| 0 <= i < tail.len() implies (#[trigger] tail[i]).0
                != entries[0].0 by {
                lemma_without_entries(rest, key, i);
            }
            lemma_front_differs(entries[0], tail);
        }
    }
}

/// What is found under a key is what stands in the first entry with that key, and
/// nothing where no entry has it.
pub proof fn law_the_first_entry_is_found<V>(
    entries: Seq<(Seq<char>, V)>,
    key: Seq<char>,
    i: int,
)
    requires
        0 <= i <= entries.len(),
        forall|j: int| 0 <= j < i ==> (#[trigger] entries[j]).0 != key,
        i < entries.len() ==> entries[i].0 == key,
    ensures
        lookup(entries, key) == if i < entries.len() {
            Some(entries[i].1)
        } else {
            None
        },
    decreases entries.len(),
{
    if entries.len() > 0 && i > 0 {
        let rest = entries.drop_first();
        assert(entries[0].0 != key);
        assert forall|j: int| 0 <= j < i - 1 implies (#[trigger] rest[j]).0 != key by {
            assert(rest[j] == entries[j + 1]);
        }
        law_the_first_entry_is_found(rest, key, i - 1);
    }
}

/// A value is put in the place of the one under the same key, or behind all others where
/// there is none; every other entry stays in its place.
pub proof fn law_values_are_put_in_place<V>(
    entries: Seq<(Seq<char>, V)>,
    key: Seq<char>,
    value: V,
    i: int,
)
    requires
        0 <= i <= entries.len(),
        forall|j: int| 0 <= j < i ==> (#[trigger] entries[j]).0 != key,
        i < entries.len() ==> entries[i].0 == key,
    ensures
        put(entries, key, value) == if i < entries.len() {
            entries.update(i, (key, value))
        } else {
            entries.push((key, value))
        },
{
    lemma_at_position(entries, key, value, i);
}

/// Removing a key leaves all entries with other keys, in their order.
pub proof fn law_other_keys_are_left<V>(entries: Seq<(Seq<char>, V)>, key: Seq<char>)
    ensures
        without(entries, key) == entries.filter(|entry: (Seq<char>, V)| entry.0 != key),
    decreases entries.len(),
{
    let other = |entry: (Seq<char>, V)| entry.0 != key;
    reveal(Seq::filter);
    if entries.len() > 0 {
        let shorter = entries.drop_last();
        law_other_keys_are_left(shorter, key);
        lemma_without_last(entries, key);
    }
}

/// Removing a key from entries is removing it from all but the last, and then from that.
proof fn lemma_without_last<V>(entries: Seq<(Seq<char>, V)>, key: Seq<char>)
    requires
        entries.len() > 0,
    ensures
        without(entries, key) == if entries.last().0 == key {
            without(entries.drop_last(), key)
        } else {
            without(entries.drop_last(), key).push(entries.last())
        },
    decreases entries.len(),
{
    let shorter = entries.drop_last();
    let rest = entries.drop_first();
    if entries.len() == 1 {
        assert(rest =~= Seq::empty());
        assert(shorter =~= Seq::empty());
        assert(without(rest, key) =~= Seq::empty());
        assert(without(shorter, key) =~= Seq::empty());
        assert(without(entries, key) =~= if entries.last().0 == key {
            Seq::empty()
        } else {
            seq![entries.last()]
        });
    } else {
        lemma_without_last(rest, key);
        assert(rest.drop_last() =~= shorter.drop_first());
        assert(rest.last() == entries.last());
        assert(shorter[0] == entries[0]);
        assert(without(entries, key) =~= if entries.last().0 == key {
            without(shorter, key)
        } else {
            without(shorter, key).push(entries.last())
        });
    }
}

/// No two answers of a question have the same identifier.
pub proof fn law_answers_have_distinct_keys(entries: Seq<JsonView>, question: Seq<char>)
    ensures
        keys_differ(question_answers(entries, question)),
    decreases entries.len(),
{
    if entries.len() > 0 {
        law_answers_have_distinct_keys(entries.drop_last(), question);
        match entries.last().as_str() {
            Some(label) => {
                let after = question_answers(entries, question);
                let before = question_answers(entries.drop_last(), question);
                let key = answer_id((entries.len() - 1) as nat);
                let answer = AnswerView {
                    index: (entries.len() - 1) as usize,
                    question,
                    answer: label,
                };
                assert(after == put(before, key, answer));
                law_put_keeps_keys_distinct(before, key, answer);
            },
            None => {},
        }
    }
}

} // verus!
