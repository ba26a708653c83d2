//! JSON text.
//!
//! Text is read and written by `serde_json`, whose tree of values is its own type.
//! This module turns that tree into [`Json`] and back, one level at a time.

use crate::json::{
    distinct_keys, find_key, first_key, lemma_first_key, lemma_first_key_is, lemma_first_key_push, number_meaning,
    Json, JsonNumber, JsonView,
};
use crate::views::viewed;
use vstd::prelude::*;

verus! {

/// Declares `serde_json::Value`, the tree of values that `serde_json` reads and writes,
/// as an opaque type.
#[verifier::external_type_specification]
#[verifier::external_body]
pub struct ExValue(serde_json::Value);

/// What a tree of `serde_json` holds: the value it stands for.
pub uninterp spec fn document(value: serde_json::Value) -> JsonView;

/// What `serde_json::from_str` makes of a text, read as a value of any kind: nothing
/// where the text is not a single JSON value.
pub uninterp spec fn parsed_json(text: Seq<char>) -> Option<JsonView>;

/// The compact text that `serde_json` writes for a value. It writes the fields of an
/// object in the order of their names, and an integer in one way only, unless it is built
/// with its features `preserve_order` or `arbitrary_precision`; this crate builds it
/// without them, and only so is the text a function of what the value means.
pub uninterp spec fn serialized_json(value: JsonView) -> Seq<char>;

/// One level of a tree of `serde_json`: a value whose parts are still trees.
pub enum Node {
    Null,
    Bool(bool),
    Number(serde_json::Number),
    Str(String),
    Array(Vec<serde_json::Value>),
    Object(Vec<(String, serde_json::Value)>),
}

impl Node {
    /// The value that this level and the trees under it stand for.
    pub open spec fn model(self) -> JsonView {
        match self {
            Node::Null => JsonView::Null,
            Node::Bool(b) => JsonView::Bool(b),
            Node::Number(number) => JsonView::Number(number_meaning(number)),
            Node::Str(text) => JsonView::Str(text@),
            Node::Array(items) => JsonView::Array(
                Seq::new(items@.len(), |i: int| document(items@[i])),
            ),
            Node::Object(fields) => JsonView::Object(
                Map::new(
                    |key: Seq<char>| first_key(fields@, key) < fields@.len(),
                    |key: Seq<char>| document(fields@[first_key(fields@, key)].1),
                ),
            ),
        }
    }
}

/// Every number in `value` is an integer between `i64::MIN` and `u64::MAX`, and arrays
/// and objects are nested at most `levels` deep.
pub open spec fn plain_within(value: JsonView, levels: nat) -> bool
    decreases levels,
{
    match value {
        JsonView::Number(number) => !(number is Other),
        JsonView::Array(items) => levels > 0 && forall|i: int|
            0 <= i < items.len() ==> plain_within(#[trigger] items[i], (levels - 1) as nat),
        JsonView::Object(fields) => levels > 0 && fields.dom().finite() && forall|key: Seq<char>|
            fields.contains_key(key) ==> plain_within(
                #[trigger] fields[key],
                (levels - 1) as nat,
            ),
        _ => true,
    }
}

/// How deep `serde_json::from_str` lets arrays and objects nest.
pub const NESTING_LIMIT: u8 = 127;

/// A value that `serde_json` reads back from its own text.
pub open spec fn plain(value: JsonView) -> bool {
    plain_within(value, NESTING_LIMIT as nat)
}

/// `serde_json::from_str::<serde_json::Value>`: reads a text as one JSON value. The
/// outcome depends on the text alone; [`parsed_json`] names it.
#[verifier::external_body]
fn value_from_text(text: &str) -> (value: Option<serde_json::Value>)
    ensures
        match value {
            Some(value) => parsed_json(text@) == Some(document(value)),
            None => parsed_json(text@) is None,
        },
{
    serde_json::from_str::<serde_json::Value>(text).ok()
}

/// Converts one level of a `serde_json::Value`: each of its variants becomes the
/// variant of [`Node`] for the same kind of value, with the same contents. A
/// `serde_json::Map` holds no two fields of one name, and hands all of them out.
#[verifier::external_body]
fn open_value(value: serde_json::Value) -> (node: Node)
    ensures
        node.model() == document(value),
        node matches Node::Object(fields) ==> distinct_keys(fields@),
{
    match value {
        serde_json::Value::Null => Node::Null,
        serde_json::Value::Bool(b) => Node::Bool(b),
        serde_json::Value::Number(number) => Node::Number(number),
        serde_json::Value::String(text) => Node::Str(text),
        serde_json::Value::Array(items) => Node::Array(items),
        serde_json::Value::Object(fields) => Node::Object(fields.into_iter().collect()),
    }
}

/// Converts one level into a `serde_json::Value`: each variant of [`Node`] becomes the
/// variant for the same kind of value, with the same contents. A `serde_json::Map`
/// collects fields of different names as they are.
#[verifier::external_body]
fn close_node(node: Node) -> (value: serde_json::Value)
    requires
        node matches Node::Object(fields) ==> distinct_keys(fields@),
    ensures
        document(value) == node.model(),
{
    match node {
        Node::Null => serde_json::Value::Null,
        Node::Bool(b) => serde_json::Value::Bool(b),
        Node::Number(number) => serde_json::Value::Number(number),
        Node::Str(text) => serde_json::Value::String(text),
        Node::Array(items) => serde_json::Value::Array(items),
        Node::Object(fields) => serde_json::Value::Object(fields.into_iter().collect()),
    }
}

/// The `Display` form of `serde_json::Value`, which is what `serde_json::to_writer`
/// writes: compact JSON. It depends on the value alone; [`serialized_json`] names it.
/// No line break stands in it, since the compact form puts none between the parts of a
/// value and control characters in strings are escaped. Unless the value holds a number
/// that is not an integer between `i64::MIN` and `u64::MAX`, or nests deeper than
/// `serde_json` reads, `serde_json::from_str` reads the same value back. Of other numbers
/// nothing is said: those are floating-point numbers, and `serde_json` does not read each
/// of them back from its text exactly.
#[verifier::external_body]
fn value_text(value: &serde_json::Value) -> (text: String)
    ensures
        text@ == serialized_json(document(*value)),
        !text@.contains('\n'),
        plain(document(*value)) ==> parsed_json(text@) == Some(document(*value)),
{
    value.to_string()
}

/// The keys of an object are finitely many.
proof fn lemma_finite_keys<V>(entries: Seq<(String, V)>, keys: Set<Seq<char>>)
    requires
        forall|key: Seq<char>|
            keys.contains(key) ==> #[trigger] first_key(entries, key) < entries.len(),
    ensures
        keys.finite(),
{
    let names = Seq::new(entries.len(), |i: int| entries[i].0@);
    assert forall|key: Seq<char>| keys.contains(key) implies names.to_set().contains(key) by {
        lemma_first_key(entries, key);
        assert(names[first_key(entries, key)] == key);
    }
    assert(keys.subset_of(names.to_set()));
    vstd::set_lib::lemma_set_subset_finite(names.to_set(), keys);
}

/// Converts a tree of `serde_json`.
fn json_of_value(value: serde_json::Value) -> (json: Json)
    ensures
        json@ == document(value),
    decreases document(value),
{
    let ghost whole = document(value);
    match open_value(value) {
        Node::Null => Json::Null,
        Node::Bool(b) => Json::Bool(b),
        Node::Number(number) => Json::Number(JsonNumber::from_number(number)),
        Node::Str(text) => Json::Str(text),
        Node::Array(items) => {
            let ghost all = items@;
            let mut converted: Vec<Json> = Vec::new();
            for item in iter: items
                invariant
                    iter.seq() == all,
                    whole == JsonView::Array(Seq::new(all.len(), |i: int| document(all[i]))),
                    whole == document(value),
                    converted.len() == iter.index(),
                    forall|j: int|
                        0 <= j < converted.len() ==> (#[trigger] converted@[j])@ == document(all[j]),
            {
                assert(document(item) == whole->Array_0[iter.index()]);
                assert(decreases_to!(whole => whole->Array_0[iter.index()]));
                converted.push(json_of_value(item));
            }
            let json = Json::Array(converted);
            assert(json@->Array_0 =~= whole->Array_0);
            json
        },
        Node::Object(fields) => {
            let ghost all = fields@;
            let mut converted: Vec<(String, Json)> = Vec::new();
            for field in iter: fields
                invariant
                    iter.seq() == all,
                    whole == JsonView::Object(
                        Map::new(
                            |key: Seq<char>| first_key(all, key) < all.len(),
                            |key: Seq<char>| document(all[first_key(all, key)].1),
                        ),
                    ),
                    whole == document(value),
                    distinct_keys(all),
                    converted.len() == iter.index(),
                    forall|j: int|
                        0 <= j < converted.len() ==> (#[trigger] converted@[j]).0@ == all[j].0@
                            && converted@[j].1@ == document(all[j].1),
            {
                proof {
                    let name = field.0@;
                    lemma_first_key_is(all, name, iter.index());
                    assert(document(field.1) == whole->Object_0[name]);
                    lemma_finite_keys(all, whole->Object_0.dom());
                    assert(decreases_to!(whole => whole->Object_0[name]));
                }
                converted.push((field.0, json_of_value(field.1)));
            }
            let json = Json::Object(converted);
            proof {
                assert forall|key: Seq<char>|
                    #![trigger first_key(converted@, key)]
                    first_key(converted@, key) == first_key(all, key) && 0 <= first_key(
                        all,
                        key,
                    ) by {
                    lemma_first_key(all, key);
                    lemma_first_key_is(converted@, key, first_key(all, key));
                }
                assert(json@->Object_0 =~= whole->Object_0);
            }
            json
        },
    }
}

/// The trees hold a field `key` exactly if it is among the first `count` fields, and with
/// the same meaning.
spec fn same_field(
    trees: Seq<(String, serde_json::Value)>,
    fields: Seq<(String, Json)>,
    count: int,
    key: Seq<char>,
) -> bool {
    let place = first_key(fields, key);
    let found = first_key(trees, key);
    &&& found < trees.len() <==> place < count
    &&& place < count ==> document(trees[found].1) == fields[place].1@
}

/// Builds the tree of `serde_json` for a value.
fn value_of_json(json: &Json) -> (value: serde_json::Value)
    ensures
        document(value) == json@,
    decreases json,
{
    match json {
        Json::Null => close_node(Node::Null),
        Json::Bool(b) => close_node(Node::Bool(*b)),
        Json::Number(number) => close_node(Node::Number(number.to_number())),
        Json::Str(text) => close_node(Node::Str(text.clone())),
        Json::Array(items) => {
            let mut trees: Vec<serde_json::Value> = Vec::new();
            let mut i: usize = 0;
            while i < items.len()
                invariant
                    i <= items.len(),
                    *json == Json::Array(*items),
                    trees.len() == i,
                    forall|j: int| 0 <= j < i ==> document(#[trigger] trees@[j]) == items@[j]@,
                decreases items.len() - i,
            {
                assert(decreases_to!(json => json->Array_0@[i as int]));
                let tree = value_of_json(&items[i]);
                trees.push(tree);
                i = i + 1;
            }
            let node = Node::Array(trees);
            assert(node.model()->Array_0 =~= json@->Array_0);
            close_node(node)
        },
        Json::Object(fields) => {
            let mut trees: Vec<(String, serde_json::Value)> = Vec::new();
            let mut i: usize = 0;
            proof {
                assert forall|key: Seq<char>| 0 <= #[trigger] first_key(fields@, key) by {
                    lemma_first_key(fields@, key);
                }
            }
            while i < fields.len()
                invariant
                    i <= fields.len(),
                    *json == Json::Object(*fields),
                    distinct_keys(trees@),
                    forall|key: Seq<char>|
                        #![trigger first_key(trees@, key)]
                        #![trigger first_key(fields@, key)]
                        same_field(trees@, fields@, i as int, key),
                decreases fields.len() - i,
            {
                let ghost before = trees@;
                let ghost name = fields@[i as int].0@;
                assert(same_field(before, fields@, i as int, name));
                proof {
                    lemma_first_key(before, name);
                    lemma_first_key(fields@, name);
                }
                if find_key(&trees, &fields[i].0).is_none() {
                    assert(decreases_to!(json => json->Object_0@[i as int].1));
                    let tree = value_of_json(&fields[i].1);
                    let field = (fields[i].0.clone(), tree);
                    trees.push(field);
                    assert forall|key: Seq<char>|
                        #![trigger first_key(trees@, key)]
                        #![trigger first_key(fields@, key)]
                        same_field(trees@, fields@, i + 1, key) by {
                        assert(same_field(before, fields@, i as int, key));
                        lemma_first_key(before, key);
                        lemma_first_key(fields@, key);
                        lemma_first_key_push(before, field, key);
                    }
                } else {
                    assert forall|key: Seq<char>|
                        #![trigger first_key(trees@, key)]
                        #![trigger first_key(fields@, key)]
                        same_field(trees@, fields@, i + 1, key) by {
                        assert(same_field(before, fields@, i as int, key));
                        lemma_first_key(fields@, key);
                    }
                }
                i = i + 1;
            }
            let node = Node::Object(trees);
            proof {
                assert forall|key: Seq<char>|
                    #![trigger first_key(fields@, key)]
                    0 <= first_key(fields@, key) && same_field(
                        trees@,
                        fields@,
                        fields.len() as int,
                        key,
                    ) by {
                    lemma_first_key(fields@, key);
                }
                assert(node.model()->Object_0 =~= json@->Object_0);
            }
            close_node(node)
        },
    }
}

/// Reads a text as one JSON value.
pub fn parse_json(text: &str) -> (json: Option<Json>)
    ensures
        viewed(json) == parsed_json(text@),
{
    match value_from_text(text) {
        Some(value) => Some(json_of_value(value)),
        None => None,
    }
}

/// The compact text of a value.
pub fn json_text(json: &Json) -> (text: String)
    ensures
        text@ == serialized_json(json@),
        !text@.contains('\n'),
        plain(json@) ==> parsed_json(text@) == Some(json@),
{
    let value = value_of_json(json);
    value_text(&value)
}

} // verus!
