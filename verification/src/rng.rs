//! The source of randomness. The engine draws from `rand`'s standard
//! generator; what the generator promises is stated here and not proved.

use vstd::prelude::*;
use rand::Rng;

verus! {

/// `rand::rngs::StdRng`. The engine only hands it on to `random_in`; its
/// state is invisible to the proofs.
#[verifier::external_type_specification]
#[verifier::external_body]
pub struct ExStdRng(rand::rngs::StdRng);

/// Draws a number with `rand::Rng::gen_range` on the range `low..high`,
/// which excludes `high`. The range must not be empty, or `gen_range`
/// panics. All that is claimed of the result is that it lies in the range;
/// nothing is said about which number comes, nor that two draws agree.
#[verifier::external_body]
pub(crate) fn random_in(rng: &mut rand::rngs::StdRng, low: u8, high: u8) -> (x: u8)
    requires
        low < high,
    ensures
        low <= x < high,
{
    rng.gen_range(low..high)
}

} // verus!
