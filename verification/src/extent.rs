//! The bounds of a set of numbers.

use crate::scalar::Scalar;
use vstd::prelude::*;

verus! {

/// Bits that hold no number.
pub const NAN_BITS: u32 = 0x7fc0_0000;

/// The least of the numbers among `values`; no number where there is none.
pub open spec fn least(values: Seq<Scalar>) -> Scalar
    decreases values.len(),
{
    if values.len() == 0 {
        Scalar { bits: NAN_BITS }
    } else {
        least(values.drop_last()).min_of(values.last())
    }
}

/// The greatest of the numbers among `values`; no number where there is
/// none.
pub open spec fn greatest(values: Seq<Scalar>) -> Scalar
    decreases values.len(),
{
    if values.len() == 0 {
        Scalar { bits: NAN_BITS }
    } else {
        greatest(values.drop_last()).max_of(values.last())
    }
}

/// Bounds are ordered: where `values` hold a number at all, their least is
/// a number and at most their greatest, and every number among them lies
/// between the two. This holds of a single value too.
pub proof fn lemma_least_is_at_most_greatest(values: Seq<Scalar>)
    ensures
        least(values).is_nan() == greatest(values).is_nan(),
        least(values).is_nan() <==> forall|i: int|
            0 <= i < values.len() ==> (#[trigger] values[i]).is_nan(),
        !least(values).is_nan() ==> least(values).le(greatest(values)),
        forall|i: int|
            0 <= i < values.len() && !(#[trigger] values[i]).is_nan() ==> least(values).le(
                values[i],
            ) && values[i].le(greatest(values)),
    decreases values.len(),
{
    if values.len() > 0 {
        let rest = values.drop_last();
        lemma_least_is_at_most_greatest(rest);
        assert forall|i: int| 0 <= i < values.len() && !(#[trigger] values[i]).is_nan() implies least(
            values,
        ).le(values[i]) && values[i].le(greatest(values)) by {
            if i < rest.len() {
                assert(rest[i] == values[i]);
            }
        }
        if least(values).is_nan() {
            assert forall|i: int| 0 <= i < values.len() implies (#[trigger] values[i]).is_nan() by {
                if i < rest.len() {
                    assert(rest[i] == values[i]);
                }
            }
        } else {
            if least(rest).is_nan() {
                assert(!values[values.len() - 1].is_nan());
            } else {
                let i = choose|i: int| 0 <= i < rest.len() && !(#[trigger] rest[i]).is_nan();
                assert(rest[i] == values[i]);
            }
        }
    }
}

} // verus!
