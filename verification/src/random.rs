//! The uniform random source that generation and mutation draw from.

use rand::Rng;
use vstd::prelude::*;

verus! {

/// Relies on rand::Rng::gen_range over an inclusive range: the result is a
/// uniformly sampled value of the range. The call panics only on an empty
/// range, which the precondition rules out. Nothing more is assumed: every
/// caller must hold for every value between `low` and `high`.
#[verifier::external_body]
pub(crate) fn random_in_range(low: i64, high: i64) -> (r: i64)
    requires
        low <= high,
    ensures
        low <= r <= high,
{
    rand::thread_rng().gen_range(low..=high)
}

} // verus!
