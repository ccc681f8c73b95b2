//! What holds of a value that is coerced to its own type.

use crate::Is;
use vstd::prelude::*;

verus! {

/// Coercing is the identity in both directions: the result is the argument.
pub proof fn lemma_identity<T>(v: T)
    ensures
        <T as Is<T>>::coerced(v) == v,
        <T as Is<T>>::rcoerced(v) == v,
{
}

/// Round trip: `rcoerce(coerce(v))` is `v`.
pub proof fn lemma_round_trip<T>(v: T)
    ensures
        <T as Is<T>>::rcoerced(<T as Is<T>>::coerced(v)) == v,
{
}

/// Forward then backward gives `v`, and the order of the two steps makes no difference:
/// backward then forward gives the same value.
pub proof fn lemma_order_is_irrelevant<T>(v: T)
    ensures
        <T as Is<T>>::rcoerced(<T as Is<T>>::coerced(v)) == v,
        <T as Is<T>>::rcoerced(<T as Is<T>>::coerced(v)) == <T as Is<T>>::coerced(
            <T as Is<T>>::rcoerced(v),
        ),
{
}

} // verus!
