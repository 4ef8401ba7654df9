use vstd::prelude::*;
use crate::backoff::JITTER_SCALE;

verus! {

#[verifier::external_type_specification]
#[verifier::external_body]
pub struct ExThreadRng(rand::rngs::ThreadRng);

/// Relies on rand's `Rng::gen_range` over the half-open range
/// `0..JITTER_SCALE`: the draw is uniform over that range and therefore
/// always strictly below the scale.  Nothing more is assumed of the value.
#[verifier::external_body]
pub(crate) fn sample_jitter(rng: &mut rand::rngs::ThreadRng) -> (r: u64)
    ensures
        r < JITTER_SCALE,
{
    rand::Rng::gen_range(rng, 0..JITTER_SCALE)
}

} // verus!
