//! JSON values.
//!
//! [`Json`] is the tree that the driver reads and builds. Contracts speak of its
//! view, [`JsonView`], in which an object is a map from field names to values: the
//! order of the fields is not part of the meaning, and of two fields with one name
//! the first counts.

use crate::text::same_text;
use crate::views::{viewed, views};
use vstd::prelude::*;

verus! {

/// An integer between `i64::MIN` and minus one.
#[derive(Clone, Copy, Debug, PartialEq, Eq)]
pub struct NegativeInteger {
    value: i64,
}

/// A number that is not an integer between `i64::MIN` and `u64::MAX`. The driver carries
/// it through and never reads it.
#[derive(Debug, PartialEq, Eq)]
pub struct OtherNumber {
    number: serde_json::Number,
}

/// A JSON number.
#[derive(Debug, PartialEq, Eq)]
pub enum JsonNumber {
    /// An integer between zero and `u64::MAX`.
    Unsigned(u64),
    /// An integer between `i64::MIN` and minus one.
    Negative(NegativeInteger),
    /// Any other number.
    Other(OtherNumber),
}

/// A JSON value.
#[derive(Debug, PartialEq, Eq)]
pub enum Json {
    Null,
    Bool(bool),
    Number(JsonNumber),
    Str(String),
    Array(Vec<Json>),
    Object(Vec<(String, Json)>),
}

/// What a [`Json`] value means.
pub enum JsonView {
    Null,
    Bool(bool),
    Number(JsonNumber),
    Str(Seq<char>),
    Array(Seq<JsonView>),
    Object(Map<Seq<char>, JsonView>),
}

/// Declares `serde_json::Number`, a JSON number of any kind, as an opaque type.
#[verifier::external_type_specification]
#[verifier::external_body]
pub struct ExNumber(serde_json::Number);

/// `serde_json::Number::clone`: the copy is the number itself.
pub assume_specification[ <serde_json::Number as Clone>::clone ](
    number: &serde_json::Number,
) -> (copy: serde_json::Number)
    ensures
        copy == *number,
;

/// What `serde_json::Number::as_u64` says of a number: its value where it is an integer
/// between zero and `u64::MAX`. It looks at how the number is stored, which is as an
/// integer or as a floating-point number unless `serde_json` is built with its feature
/// `arbitrary_precision`; this crate builds it without.
pub uninterp spec fn unsigned_value(number: serde_json::Number) -> Option<u64>;

/// `serde_json::Number::as_u64`: the outcome depends on the number alone;
/// [`unsigned_value`] names it.
pub assume_specification[ serde_json::Number::as_u64 ](number: &serde_json::Number) -> (value:
    Option<u64>)
    ensures
        value == unsigned_value(*number),
;

/// `serde_json::Number::from` on a `u64`: the number with that value.
#[verifier::external_body]
fn unsigned_number(n: u64) -> (number: serde_json::Number)
    ensures
        unsigned_value(number) == Some(n),
{
    serde_json::Number::from(n)
}

/// What `serde_json::Number::as_i64` says of a number: its value where it is an integer
/// between `i64::MIN` and `i64::MAX`. As with [`unsigned_value`], that is so without the
/// feature `arbitrary_precision` of `serde_json`.
pub uninterp spec fn signed_value(number: serde_json::Number) -> Option<i64>;

/// `serde_json::Number::as_i64`: the outcome depends on the number alone;
/// [`signed_value`] names it.
pub assume_specification[ serde_json::Number::as_i64 ](number: &serde_json::Number) -> (value:
    Option<i64>)
    ensures
        value == signed_value(*number),
;

/// `serde_json::Number::from` on an `i64`: the number with that value, which is an
/// unsigned one unless it is negative.
#[verifier::external_body]
fn signed_number(n: i64) -> (number: serde_json::Number)
    ensures
        signed_value(number) == Some(n),
        unsigned_value(number) == if n < 0 {
            None
        } else {
            Some(n as u64)
        },
{
    serde_json::Number::from(n)
}

/// The position of the first entry under `key`, or the number of entries if there is
/// none.
pub open spec fn first_key<V>(entries: Seq<(String, V)>, key: Seq<char>) -> int
    decreases entries.len(),
{
    if entries.len() == 0 || entries[0].0@ == key {
        0
    } else {
        1 + first_key(entries.drop_first(), key)
    }
}

/// No two entries have the same key.
pub open spec fn distinct_keys<V>(entries: Seq<(String, V)>) -> bool {
    forall|i: int, j: int|
        0 <= i < j < entries.len() ==> (#[trigger] entries[i]).0@ != (#[trigger] entries[j]).0@
}

/// What [`first_key`] finds: no entry before it has the key, and it has the key itself
/// unless it is past the end.
pub proof fn lemma_first_key<V>(entries: Seq<(String, V)>, key: Seq<char>)
    ensures
        0 <= first_key(entries, key) <= entries.len(),
        first_key(entries, key) < entries.len() ==> entries[first_key(entries, key)].0@ == key,
        forall|j: int|
            0 <= j < first_key(entries, key) ==> (#[trigger] entries[j]).0@ != key,
    decreases entries.len(),
{
    if entries.len() == 0 || entries[0].0@ == key {
    } else {
        let rest = entries.drop_first();
        lemma_first_key(rest, key);
        assert forall|j: int| 0 <= j < first_key(entries, key) implies (
        #[trigger] entries[j]).0@ != key by {
            if j > 0 {
                assert(entries[j] == rest[j - 1]);
            }
        }
    }
}

/// An entry under `key` with none before it is the one that [`first_key`] finds.
pub proof fn lemma_first_key_is<V>(entries: Seq<(String, V)>, key: Seq<char>, i: int)
    requires
        0 <= i <= entries.len(),
        i < entries.len() ==> entries[i].0@ == key,
        forall|j: int| 0 <= j < i ==> (#[trigger] entries[j]).0@ != key,
    ensures
        first_key(entries, key) == i,
{
    lemma_first_key(entries, key);
}

/// What [`first_key`] finds with one entry more.
pub proof fn lemma_first_key_push<V>(entries: Seq<(String, V)>, entry: (String, V), key: Seq<char>)
    ensures
        first_key(entries.push(entry), key) == if first_key(entries, key) < entries.len() {
            first_key(entries, key)
        } else if entry.0@ == key {
            entries.len() as int
        } else {
            entries.len() as int + 1
        },
{
    let longer = entries.push(entry);
    lemma_first_key(entries, key);
    if first_key(entries, key) < entries.len() {
        assert(longer[first_key(entries, key)] == entries[first_key(entries, key)]);
        lemma_first_key_is(longer, key, first_key(entries, key));
    } else if entry.0@ == key {
        lemma_first_key_is(longer, key, entries.len() as int);
    } else {
        lemma_first_key_is(longer, key, entries.len() as int + 1);
    }
}

/// Finds the first entry under `key`.
pub fn find_key<V>(entries: &Vec<(String, V)>, key: &str) -> (found: Option<usize>)
    ensures
        match found {
            Some(i) => i < entries.len() && first_key(entries@, key@) == i,
            None => first_key(entries@, key@) == entries.len(),
        },
{
    let mut i: usize = 0;
    while i < entries.len()
        invariant
            i <= entries.len(),
            forall|j: int| 0 <= j < i ==> (#[trigger] entries@[j]).0@ != key@,
        decreases entries.len() - i,
    {
        if same_text(&entries[i].0, key) {
            proof {
                lemma_first_key_is(entries@, key@, i as int);
            }
            return Some(i);
        }
        i = i + 1;
    }
    proof {
        lemma_first_key_is(entries@, key@, i as int);
    }
    None
}

impl JsonView {
    /// The field `key` of an object; other values have no fields.
    pub open spec fn get(self, key: Seq<char>) -> Option<JsonView> {
        match self {
            JsonView::Object(fields) => if fields.contains_key(key) {
                Some(fields[key])
            } else {
                None
            },
            _ => None,
        }
    }

    /// The object with the field `key` set to `value`.
    pub open spec fn with(self, key: Seq<char>, value: JsonView) -> JsonView {
        match self {
            JsonView::Object(fields) => JsonView::Object(fields.insert(key, value)),
            other => other,
        }
    }

    /// The text of a string.
    pub open spec fn as_str(self) -> Option<Seq<char>> {
        match self {
            JsonView::Str(text) => Some(text),
            _ => None,
        }
    }

    /// The truth value of a boolean.
    pub open spec fn as_bool(self) -> Option<bool> {
        match self {
            JsonView::Bool(b) => Some(b),
            _ => None,
        }
    }

    /// The value of an integer between zero and `u64::MAX`.
    pub open spec fn as_u64(self) -> Option<u64> {
        match self {
            JsonView::Number(JsonNumber::Unsigned(n)) => Some(n),
            _ => None,
        }
    }

    /// The items of an array.
    pub open spec fn as_array(self) -> Option<Seq<JsonView>> {
        match self {
            JsonView::Array(items) => Some(items),
            _ => None,
        }
    }

    /// The text of the field `key`, where that field is a string.
    pub open spec fn get_str(self, key: Seq<char>) -> Option<Seq<char>> {
        match self.get(key) {
            Some(value) => value.as_str(),
            None => None,
        }
    }

    /// The items of the field `key`, or none where that field is not an array.
    pub open spec fn get_items(self, key: Seq<char>) -> Seq<JsonView> {
        match self.get(key) {
            Some(JsonView::Array(items)) => items,
            _ => Seq::empty(),
        }
    }
}

/// The object without fields.
pub open spec fn empty_object() -> JsonView {
    JsonView::Object(Map::empty())
}

impl Json {
    /// What this value means.
    pub open spec fn model(self) -> JsonView
        decreases self,
    {
        match self {
            Json::Null => JsonView::Null,
            Json::Bool(b) => JsonView::Bool(b),
            Json::Number(number) => JsonView::Number(number),
            Json::Str(text) => JsonView::Str(text@),
            Json::Array(items) => JsonView::Array(
                Seq::new(
                    items@.len(),
                    |i: int|
                        if 0 <= i < items@.len() {
                            items@[i].model()
                        } else {
                            JsonView::Null
                        },
                ),
            ),
            Json::Object(fields) => JsonView::Object(
                Map::new(
                    |key: Seq<char>| first_key(fields@, key) < fields@.len(),
                    |key: Seq<char>|
                        {
                            let i = first_key(fields@, key);
                            if 0 <= i < fields@.len() {
                                fields@[i].1.model()
                            } else {
                                JsonView::Null
                            }
                        },
                ),
            ),
        }
    }
}

impl View for Json {
    type V = JsonView;

    open spec fn view(&self) -> JsonView {
        self.model()
    }
}

impl View for NegativeInteger {
    type V = int;

    closed spec fn view(&self) -> int {
        self.value as int
    }
}

impl NegativeInteger {
    /// The integer is negative.
    #[verifier::type_invariant]
    spec fn is_negative(self) -> bool {
        self.value < 0
    }
}

impl OtherNumber {
    /// The number is none that another variant of [`JsonNumber`] stands for.
    #[verifier::type_invariant]
    spec fn is_other(self) -> bool {
        number_meaning(self.number) is Other
    }

    /// A copy of this number.
    fn copy(&self) -> (copy: OtherNumber)
        ensures
            copy == *self,
    {
        proof {
            use_type_invariant(self);
        }
        OtherNumber { number: self.number.clone() }
    }
}

/// What a number of `serde_json` means.
pub closed spec fn number_meaning(number: serde_json::Number) -> JsonNumber {
    match unsigned_value(number) {
        Some(n) => JsonNumber::Unsigned(n),
        None => match signed_value(number) {
            Some(n) => if n < 0 {
                JsonNumber::Negative(NegativeInteger { value: n })
            } else {
                JsonNumber::Other(OtherNumber { number })
            },
            None => JsonNumber::Other(OtherNumber { number }),
        },
    }
}

impl JsonNumber {
    /// The integer `n`.
    pub fn of_integer(n: i64) -> (number: JsonNumber)
        ensures
            n >= 0 ==> number == JsonNumber::Unsigned(n as u64),
            n < 0 ==> (number matches JsonNumber::Negative(integer) && integer@ == n),
    {
        if n < 0 {
            JsonNumber::Negative(NegativeInteger { value: n })
        } else {
            JsonNumber::Unsigned(n as u64)
        }
    }

    /// Takes over a number of `serde_json`.
    pub(crate) fn from_number(number: serde_json::Number) -> (json: JsonNumber)
        ensures
            json == number_meaning(number),
    {
        match number.as_u64() {
            Some(n) => JsonNumber::Unsigned(n),
            None => match number.as_i64() {
                Some(n) => if n < 0 {
                    JsonNumber::of_integer(n)
                } else {
                    JsonNumber::Other(OtherNumber { number })
                },
                None => JsonNumber::Other(OtherNumber { number }),
            },
        }
    }

    /// The number of `serde_json` that means this number.
    pub(crate) fn to_number(&self) -> (number: serde_json::Number)
        ensures
            number_meaning(number) == *self,
    {
        match self {
            JsonNumber::Unsigned(n) => unsigned_number(*n),
            JsonNumber::Negative(integer) => {
                proof {
                    use_type_invariant(integer);
                }
                signed_number(integer.value)
            },
            JsonNumber::Other(other) => {
                proof {
                    use_type_invariant(other);
                }
                other.number.clone()
            },
        }
    }

    /// A copy of this number.
    pub fn copy(&self) -> (copy: JsonNumber)
        ensures
            copy == *self,
    {
        match self {
            JsonNumber::Unsigned(n) => JsonNumber::Unsigned(*n),
            JsonNumber::Negative(integer) => JsonNumber::Negative(*integer),
            JsonNumber::Other(other) => JsonNumber::Other(other.copy()),
        }
    }
}

impl Json {
    /// A copy of this value.
    pub fn copy(&self) -> (copy: Json)
        ensures
            copy@ == self@,
        decreases self,
    {
        match self {
            Json::Null => Json::Null,
            Json::Bool(b) => Json::Bool(*b),
            Json::Number(number) => Json::Number(number.copy()),
            Json::Str(text) => Json::Str(text.clone()),
            Json::Array(items) => {
                let mut copies: Vec<Json> = Vec::new();
                let mut i: usize = 0;
                while i < items.len()
                    invariant
                        i <= items.len(),
                        *self == Json::Array(*items),
                        copies.len() == i,
                        forall|j: int| 0 <= j < i ==> (#[trigger] copies@[j])@ == items@[j]@,
                    decreases items.len() - i,
                {
                    assert(decreases_to!(self => self->Array_0@[i as int]));
                    let copy = items[i].copy();
                    copies.push(copy);
                    i = i + 1;
                }
                let copy = Json::Array(copies);
                assert(copy@->Array_0 =~= self@->Array_0);
                copy
            },
            Json::Object(fields) => {
                let mut copies: Vec<(String, Json)> = Vec::new();
                let mut i: usize = 0;
                while i < fields.len()
                    invariant
                        i <= fields.len(),
                        *self == Json::Object(*fields),
                        copies.len() == i,
                        forall|j: int|
                            0 <= j < i ==> (#[trigger] copies@[j]).0@ == fields@[j].0@
                                && copies@[j].1@ == fields@[j].1@,
                    decreases fields.len() - i,
                {
                    assert(decreases_to!(self => self->Object_0@[i as int].1));
                    let copy = fields[i].1.copy();
                    copies.push((fields[i].0.clone(), copy));
                    i = i + 1;
                }
                proof {
                    lemma_same_fields(copies, *fields);
                }
                Json::Object(copies)
            },
        }
    }

    /// The field `key` of an object; other values have no fields.
    pub fn get(&self, key: &str) -> (value: Option<&Json>)
        ensures
            match value {
                Some(value) => self@.get(key@) == Some(value@),
                None => self@.get(key@) is None,
            },
    {
        match self {
            Json::Object(fields) => {
                proof {
                    lemma_first_key(fields@, key@);
                }
                match find_key(fields, key) {
                    Some(i) => Some(&fields[i].1),
                    None => None,
                }
            },
            _ => None,
        }
    }

    /// The text of a string.
    pub fn as_str(&self) -> (text: Option<&str>)
        ensures
            match text {
                Some(text) => self@.as_str() == Some(text@),
                None => self@.as_str() is None,
            },
    {
        match self {
            Json::Str(text) => Some(text.as_str()),
            _ => None,
        }
    }

    /// The truth value of a boolean.
    pub fn as_bool(&self) -> (b: Option<bool>)
        ensures
            b == self@.as_bool(),
    {
        match self {
            Json::Bool(b) => Some(*b),
            _ => None,
        }
    }

    /// The value of an integer between zero and `u64::MAX`.
    pub fn as_u64(&self) -> (n: Option<u64>)
        ensures
            n == self@.as_u64(),
    {
        match self {
            Json::Number(JsonNumber::Unsigned(n)) => Some(*n),
            _ => None,
        }
    }

    /// The items of an array.
    pub fn as_array(&self) -> (items: Option<&Vec<Json>>)
        ensures
            match items {
                Some(items) => self@ == JsonView::Array(views(*items)),
                None => self@.as_array() is None,
            },
    {
        match self {
            Json::Array(items) => {
                assert(self@->Array_0 =~= views(*items));
                Some(items)
            },
            _ => None,
        }
    }

    /// Whether this value is `null`.
    pub fn is_null(&self) -> (null: bool)
        ensures
            null == (self@ is Null),
    {
        match self {
            Json::Null => true,
            _ => false,
        }
    }

    /// The text of the field `key`, where that field is a string.
    pub fn get_str(&self, key: &str) -> (text: Option<&str>)
        ensures
            match text {
                Some(text) => self@.get_str(key@) == Some(text@),
                None => self@.get_str(key@) is None,
            },
    {
        match self.get(key) {
            Some(value) => value.as_str(),
            None => None,
        }
    }

    /// An owned copy of the text of the field `key`, where that field is a string.
    pub fn get_string(&self, key: &str) -> (text: Option<String>)
        ensures
            match text {
                Some(text) => self@.get_str(key@) == Some(text@),
                None => self@.get_str(key@) is None,
            },
    {
        match self.get_str(key) {
            Some(text) => Some(text.to_owned()),
            None => None,
        }
    }

    /// A copy of the field `key`.
    pub fn get_copy(&self, key: &str) -> (value: Option<Json>)
        ensures
            viewed(value) == self@.get(key@),
    {
        match self.get(key) {
            Some(value) => Some(value.copy()),
            None => None,
        }
    }

    /// The string that holds `text`.
    pub fn text(text: &str) -> (json: Json)
        ensures
            json@ == JsonView::Str(text@),
    {
        Json::Str(text.to_owned())
    }

    /// The object without fields.
    pub fn object() -> (json: Json)
        ensures
            json@ == empty_object(),
    {
        let fields: Vec<(String, Json)> = Vec::new();
        let json = Json::Object(fields);
        assert(json@->Object_0 =~= Map::empty());
        json
    }

    /// This object with the field `key` set to `value`. Any other value stays as it is.
    pub fn with(self, key: &str, value: Json) -> (json: Json)
        ensures
            json@ == self@.with(key@, value@),
    {
        match self {
            Json::Object(fields) => {
                let mut fields = fields;
                match find_key(&fields, key) {
                    Some(i) => {
                        let ghost before = fields@;
                        let ghost entry = (fields@[i as int].0, value);
                        let name = fields[i].0.clone();
                        fields.set(i, (name, value));
                        let json = Json::Object(fields);
                        proof {
                            lemma_first_key(before, key@);
                            assert(fields@ == before.update(i as int, entry));
                            assert forall|k: Seq<char>|
                                first_key(fields@, k) == first_key(before, k) by {
                                lemma_first_key(before, k);
                                lemma_first_key_is(fields@, k, first_key(before, k));
                            }
                            assert forall|k: Seq<char>| k != key@ implies first_key(before, k)
                                != i by {
                                lemma_first_key(before, k);
                            }
                            assert(json@->Object_0 =~= self@->Object_0.insert(key@, value@));
                        }
                        json
                    },
                    None => {
                        let ghost before = fields@;
                        let name = key.to_owned();
                        fields.push((name, value));
                        let json = Json::Object(fields);
                        proof {
                            assert forall|k: Seq<char>|
                                0 <= #[trigger] first_key(before, k) && first_key(fields@, k) == (
                                if first_key(before, k) < before.len() {
                                    first_key(before, k)
                                } else if k == key@ {
                                    before.len() as int
                                } else {
                                    before.len() as int + 1
                                }) by {
                                lemma_first_key(before, k);
                                lemma_first_key_push(before, (name, value), k);
                            }
                            assert(json@->Object_0 =~= self@->Object_0.insert(key@, value@));
                        }
                        json
                    },
                }
            },
            other => other,
        }
    }
}

/// A number means the integer that it is, from `i64::MIN` to `u64::MAX`, and any other
/// number means itself and no other.
pub proof fn law_numbers_mean_their_integers(
    number: serde_json::Number,
    other: serde_json::Number,
)
    ensures
        unsigned_value(number) matches Some(n) ==> number_meaning(number) == JsonNumber::Unsigned(
            n,
        ),
        unsigned_value(number) is None ==> match signed_value(number) {
            Some(n) => if n < 0 {
                number_meaning(number) matches JsonNumber::Negative(integer) && integer@ == n
            } else {
                number_meaning(number) is Other
            },
            None => number_meaning(number) is Other,
        },
        number_meaning(number) is Other && number_meaning(number) == number_meaning(other)
            ==> number == other,
{
}

/// Objects with the same field names and meanings in the same places mean the same.
proof fn lemma_same_fields(left: Vec<(String, Json)>, right: Vec<(String, Json)>)
    requires
        left.len() == right.len(),
        forall|j: int|
            0 <= j < left.len() ==> (#[trigger] left@[j]).0@ == right@[j].0@ && left@[j].1@
                == right@[j].1@,
    ensures
        Json::Object(left)@ == Json::Object(right)@,
{
    assert forall|key: Seq<char>|
        first_key(left@, key) == first_key(right@, key) && 0 <= first_key(left@, key) by {
        lemma_first_key(right@, key);
        lemma_first_key_is(left@, key, first_key(right@, key));
    }
    assert(Json::Object(left)@->Object_0 =~= Json::Object(right)@->Object_0);
}

} // verus!
