//! What optional values and lists of values mean.

use vstd::prelude::*;

verus! {

/// What an optional value means.
pub open spec fn viewed<V: View>(value: Option<V>) -> Option<V::V> {
    match value {
        Some(value) => Some(value@),
        None => None,
    }
}

/// What a list of values means.
pub open spec fn views<V: View>(values: Vec<V>) -> Seq<V::V> {
    values@.map_values(|value: V| value@)
}

/// The meaning of a list with one value more.
pub proof fn lemma_views_push<V: View>(shorter: Vec<V>, longer: Vec<V>, value: V)
    requires
        longer@ == shorter@.push(value),
    ensures
        views(longer) == views(shorter).push(value@),
{
    assert(views(longer) =~= views(shorter).push(value@));
}

} // verus!
