//! What holds of JSON values: what a tree means, and what is read from it.

use crate::codec::{document, Node};
use crate::json::{
    distinct_keys, lemma_first_key, lemma_first_key_is, number_meaning, Json, JsonNumber, JsonView,
};
use crate::views::{viewed, views};
use vstd::prelude::*;

verus! {

/// A value that is not a container means itself.
pub proof fn law_simple_values_mean_themselves(b: bool, number: JsonNumber, text: String)
    ensures
        Json::Null@ == JsonView::Null,
        Json::Bool(b)@ == JsonView::Bool(b),
        Json::Number(number)@ == JsonView::Number(number),
        Json::Str(text)@ == JsonView::Str(text@),
{
}

/// An array means its items, each in its place.
pub proof fn law_arrays_mean_their_items(items: Vec<Json>)
    ensures
        Json::Array(items)@ matches JsonView::Array(meant) && meant.len() == items@.len()
            && forall|i: int| 0 <= i < items@.len() ==> (#[trigger] meant[i]) == items@[i]@,
{
}

/// An object means its fields: under each name stands the first value with that name, and
/// under no other name anything.
pub proof fn law_objects_mean_their_fields(fields: Vec<(String, Json)>)
    ensures
        Json::Object(fields)@ is Object,
        forall|i: int|
            0 <= i < fields@.len() && (forall|j: int|
                0 <= j < i ==> (#[trigger] fields@[j]).0@ != fields@[i].0@) ==> Json::Object(
                fields,
            )@.get((#[trigger] fields@[i]).0@) == Some(fields@[i].1@),
        forall|key: Seq<char>|
            (forall|j: int| 0 <= j < fields@.len() ==> (#[trigger] fields@[j]).0@ != key)
                ==> #[trigger] Json::Object(fields)@.get(key) is None,
{
    assert forall|i: int|
        0 <= i < fields@.len() && (forall|j: int|
            0 <= j < i ==> (#[trigger] fields@[j]).0@ != fields@[i].0@) implies Json::Object(
        fields,
    )@.get((#[trigger] fields@[i]).0@) == Some(fields@[i].1@) by {
        lemma_first_key_is(fields@, fields@[i].0@, i);
    }
    assert forall|key: Seq<char>|
        (forall|j: int| 0 <= j < fields@.len() ==> (#[trigger] fields@[j]).0@
            != key) implies #[trigger] Json::Object(fields)@.get(key) is None by {
        lemma_first_key_is(fields@, key, fields@.len() as int);
    }
}

/// Fields are read by their names, and only from objects.
pub proof fn law_fields_are_read_by_name(value: JsonView, key: Seq<char>)
    ensures
        value.get(key) is Some <==> (value matches JsonView::Object(fields)
            && fields.contains_key(key)),
        value.get(key) matches Some(field) ==> field == value->Object_0[key],
        value.get_str(key) matches Some(text) ==> value.get(key) == Some(JsonView::Str(text)),
        value.get_str(key) is None ==> !(value.get(key) matches Some(JsonView::Str(_))),
        value.get_items(key).len() > 0 ==> value.get(key) == Some(
            JsonView::Array(value.get_items(key)),
        ),
        value.get_items(key).len() == 0 ==> !(value.get(key) matches Some(JsonView::Array(items))
            && items.len() > 0),
{
}

/// A value is read as what it is, and as nothing else.
pub proof fn law_values_are_read_as_what_they_are(value: JsonView)
    ensures
        forall|text: Seq<char>| value.as_str() == Some(text) <==> value == JsonView::Str(text),
        forall|b: bool| value.as_bool() == Some(b) <==> value == JsonView::Bool(b),
        forall|n: u64|
            value.as_u64() == Some(n) <==> value == JsonView::Number(JsonNumber::Unsigned(n)),
        forall|items: Seq<JsonView>|
            value.as_array() == Some(items) <==> value == JsonView::Array(items),
{
}

/// A field that is set is found, and the other fields are as before.
pub proof fn law_set_fields_are_found(
    fields: Map<Seq<char>, JsonView>,
    key: Seq<char>,
    value: JsonView,
    other: Seq<char>,
)
    ensures
        JsonView::Object(fields).with(key, value).get(key) == Some(value),
        other != key ==> JsonView::Object(fields).with(key, value).get(other) == JsonView::Object(
            fields,
        ).get(other),
{
}

/// One level of a tree of `serde_json` means what it is, and what the trees under it mean.
pub proof fn law_levels_mean_their_parts(
    b: bool,
    number: serde_json::Number,
    text: String,
    items: Vec<serde_json::Value>,
    fields: Vec<(String, serde_json::Value)>,
    i: int,
    key: Seq<char>,
)
    requires
        distinct_keys(fields@),
    ensures
        Node::Null.model() == JsonView::Null,
        Node::Bool(b).model() == JsonView::Bool(b),
        Node::Number(number).model() == JsonView::Number(number_meaning(number)),
        Node::Str(text).model() == JsonView::Str(text@),
        Node::Array(items).model() matches JsonView::Array(meant) && meant.len() == items@.len()
            && (0 <= i < items@.len() ==> meant[i] == document(items@[i])),
        Node::Object(fields).model() is Object,
        0 <= i < fields@.len() ==> Node::Object(fields).model().get(fields@[i].0@) == Some(
            document(fields@[i].1),
        ),
        Node::Object(fields).model().get(key) is Some ==> exists|j: int|
            0 <= j < fields@.len() && (#[trigger] fields@[j]).0@ == key,
{
    if 0 <= i < fields@.len() {
        lemma_first_key_is(fields@, fields@[i].0@, i);
    }
    lemma_first_key(fields@, key);
}

/// Optional values and lists of values mean what is in them.
pub proof fn law_contents_are_meant<V: View>(value: V, values: Vec<V>)
    ensures
        viewed(Some(value)) == Some(value@),
        viewed(None::<V>) is None,
        views(values).len() == values@.len(),
        forall|i: int| 0 <= i < values@.len() ==> (#[trigger] views(values)[i]) == values@[i]@,
{
}

} // verus!
