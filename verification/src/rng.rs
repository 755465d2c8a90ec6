//! Randomness for formation geometry and the enemy fire gate, drawn from
//! the `rand` crate behind trusted wrappers.

use vstd::prelude::*;
use rand::Rng;

verus! {

/// Relies on rand's `Rng::gen_range` over a half-open `i64` range: the
/// sample lies in `[lo, hi)`; an empty range would panic, so it is ruled
/// out.  Nothing more is promised: the draw is random.
#[verifier::external_body]
pub(crate) fn rand_in_range(lo: i64, hi: i64) -> (r: i64)
    requires
        lo < hi,
    ensures
        lo <= r < hi,
{
    rand::thread_rng().gen_range(lo..hi)
}

/// Relies on rand's `Rng::gen_ratio`: true with probability `num/den`; a
/// zero denominator or `num > den` would panic, so they are ruled out.
/// Nothing is promised of the outcome.
#[verifier::external_body]
pub(crate) fn rand_ratio(num: u32, den: u32) -> bool
    requires
        0 < den,
        num <= den,
{
    rand::thread_rng().gen_ratio(num, den)
}

} // verus!
