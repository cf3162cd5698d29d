use vstd::prelude::*;

verus! {

/// Returns a random integer in `[min, max]`.
///
/// Relies on `rand::Rng::gen_range` over an inclusive range: the result lies
/// in the range, and the call panics only when the range is empty, which the
/// precondition rules out.  Nothing more is assumed of the draw.
#[verifier::external_body]
pub fn random_int_bounded(min: i64, max: i64) -> (r: i64)
    requires
        min <= max,
    ensures
        min <= r <= max,
{
    rand::Rng::gen_range(&mut rand::thread_rng(), min..=max)
}

} // verus!
