//! The one draw that the model can make itself: a uniform draw from `[0, 1]`,
//! which in fixed point is a whole number of billionths.

use crate::fixed::narrowed;
use crate::fixed::UNIT;
use crate::host::Reply;
use crate::regression::power_law;
use crate::regression::power_law_base;
use rand::distributions::Distribution;
use rand::distributions::Uniform;
use rand::rngs::StdRng;
use vstd::prelude::*;

verus! {

/// The generator `rand::rngs::StdRng`, of which nothing is known but that
/// it can be drawn from.
#[verifier::external_type_specification]
#[verifier::external_body]
pub struct ExStdRng(rand::rngs::StdRng);

/// Calls `Uniform::new_inclusive(0, UNIT).sample(rng)` of rand, on `i64`.
/// Nothing is claimed of the draw but that it lies in the closed range that
/// the distribution was made with, and of the generator nothing at all.
#[verifier::external_body]
fn uniform_draw(rng: &mut StdRng) -> (y: i64)
    ensures
        0 <= y <= UNIT,
{
    Uniform::new_inclusive(0i64, UNIT).sample(rng)
}

/// Answers a request for a uniform draw from the generator.
pub fn uniform_reply(rng: &mut StdRng) -> (r: Reply)
    ensures
        r matches Reply::Value(y) && 0 <= y <= UNIT,
{
    Reply::Value(uniform_draw(rng))
}

/// Draws the base of the power law's last power for one fragment: raised to
/// `1 / (n + 1)` it is the fragment's characteristic length. The base is
/// that of some draw from `[0, 1]`; there is none where it does not fit.
///
/// * `lower_power` - the minimum characteristic length raised to `n + 1`
/// * `upper_power` - the maximum characteristic length raised to `n + 1`
pub fn characteristic_length_dist(rng: &mut StdRng, lower_power: i64, upper_power: i64) -> (r:
    Option<i64>)
    ensures
        exists|y: int|
            0 <= y <= UNIT && r == narrowed(
                #[trigger] power_law_base(lower_power as int, upper_power as int, y),
            ),
{
    let y: i64 = uniform_draw(rng);
    power_law(lower_power, upper_power, y)
}

} // verus!
