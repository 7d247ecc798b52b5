//! The area-to-mass ratio of a fragment.
//!
//! The ratio is drawn in one of three regimes, chosen by
//! `lambda = log10(length)`. Every parameter of every draw is a clamped linear
//! function of `lambda`: a constant at or below a lower bound, another
//! constant at or above an upper bound, a line in between.

use crate::fixed::fits;
use crate::fixed::floor_div;
use crate::fixed::floor_div_wide;
use crate::fixed::narrow;
use crate::fixed::narrowed;
use crate::fixed::product;
use crate::fixed::product_wide;
use crate::fixed::UNIT;
use crate::satellite::SatKind;
use vstd::prelude::*;

verus! {

/// Above `lambda = 0.11` a fragment is drawn as a large object.
pub const LARGE_BOUND: i64 = 110_000_000;

/// Below `lambda = 0.08` a fragment is drawn as a small object.
pub const SMALL_BOUND: i64 = 80_000_000;

/// The length 0.08 from which the transition band interpolates.
pub const TRANSITION_START: i64 = 80_000_000;

/// The width 0.03 over which the transition band interpolates.
pub const TRANSITION_WIDTH: i64 = 30_000_000;

/// The standard deviation of a small object where `lambda` is as large as
/// it can be: the value of its line at `i64::MAX`.
pub const SIGMA_SOC_CEILING: i64 = 1_229_475_493_179_291_615;

/// The three regimes of the area-to-mass ratio.
#[derive(Clone, Copy, Debug, PartialEq, Eq, Structural)]
pub enum Regime {
    /// `lambda < 0.08`: one normal draw.
    Small,
    /// `0.08 <= lambda <= 0.11`: both values, interpolated.
    Transition,
    /// `lambda > 0.11`: a mixture of two normal draws.
    Large,
}

/// The line `base + slope * (lambda + shift)`.
#[derive(Clone, Copy, Debug, PartialEq, Eq, Structural)]
pub struct Linear {
    pub base: i64,
    pub slope: i64,
    pub shift: i64,
}

/// A clamped linear function of `lambda`: `lower_return` at or below
/// `lower`, `upper_return` at or above `upper`, and in between the line
/// `base + slope * (lambda + shift)`.
pub open spec fn clamped(
    lambda: int,
    lower: int,
    upper: int,
    lower_return: int,
    upper_return: int,
    base: int,
    slope: int,
    shift: int,
) -> int {
    if lambda <= lower {
        lower_return
    } else if lambda >= upper {
        upper_return
    } else {
        base + product(slope, lambda + shift)
    }
}

/// The regime that `lambda` falls in.
pub open spec fn regime_of(lambda: int) -> Regime {
    if lambda > LARGE_BOUND {
        Regime::Large
    } else if lambda < SMALL_BOUND {
        Regime::Small
    } else {
        Regime::Transition
    }
}

/// The mixing weight of the first normal draw.
pub open spec fn alpha_of(kind: SatKind, lambda: int) -> int {
    match kind {
        SatKind::RB => clamped(
            lambda,
            -1_400_000_000,
            0,
            1_000_000_000,
            500_000_000,
            1_000_000_000,
            -357_100_000,
            1_400_000_000,
        ),
        _ => clamped(
            lambda,
            -1_950_000_000,
            550_000_000,
            0,
            1_000_000_000,
            300_000_000,
            400_000_000,
            1_200_000_000,
        ),
    }
}

/// The mean of the first normal draw.
pub open spec fn mean_1_of(kind: SatKind, lambda: int) -> int {
    match kind {
        SatKind::RB => clamped(
            lambda,
            -500_000_000,
            0,
            -450_000_000,
            -900_000_000,
            -450_000_000,
            -900_000_000,
            500_000_000,
        ),
        _ => clamped(
            lambda,
            -1_100_000_000,
            0,
            -600_000_000,
            -950_000_000,
            -600_000_000,
            -318_309_886,
            1_100_000_000,
        ),
    }
}

/// The standard deviation of the first normal draw.
pub open spec fn sigma_1_of(kind: SatKind, lambda: int) -> int {
    match kind {
        SatKind::RB => 550_000_000,
        _ => clamped(
            lambda,
            -1_300_000_000,
            -300_000_000,
            100_000_000,
            300_000_000,
            100_000_000,
            200_000_000,
            1_300_000_000,
        ),
    }
}

/// The mean of the second normal draw.
pub open spec fn mean_2_of(kind: SatKind, lambda: int) -> int {
    match kind {
        SatKind::RB => -900_000_000,
        _ => clamped(
            lambda,
            -700_000_000,
            -100_000_000,
            -1_200_000_000,
            -2_000_000_000,
            -1_200_000_000,
            -1_333_000_000,
            700_000_000,
        ),
    }
}

/// The standard deviation of the second normal draw, the same for every class.
pub open spec fn sigma_2_of(lambda: int) -> int {
    clamped(
        lambda,
        -500_000_000,
        -300_000_000,
        500_000_000,
        300_000_000,
        500_000_000,
        -1_000_000_000,
        500_000_000,
    )
}

/// The mean of the draw of a small object.
pub open spec fn mean_soc_of(lambda: int) -> int {
    clamped(
        lambda,
        -1_750_000_000,
        -1_250_000_000,
        -300_000_000,
        -1_000_000_000,
        -300_000_000,
        -1_400_000_000,
        1_750_000_000,
    )
}

/// The standard deviation of the draw of a small object: 0.2 up to
/// `lambda = -3.5`, and a line from there on.
pub open spec fn sigma_soc_of(lambda: int) -> int {
    if lambda <= -3_500_000_000 {
        200_000_000
    } else {
        200_000_000 + product(133_300_000, lambda + 3_500_000_000)
    }
}

/// The exponent of the large-object value: the two draws mixed by `alpha`.
pub open spec fn mixture_of(kind: SatKind, lambda: int, first: int, second: int) -> int {
    product(alpha_of(kind, lambda), first) + product(UNIT - alpha_of(kind, lambda), second)
}

/// The value of the transition band: on the line that starts at the
/// small-object value at the length 0.08 and passes through the large-object
/// value at the length 0.11, the point at this length.
pub open spec fn interpolated(length: int, small_value: int, large_value: int) -> int {
    small_value + floor_div(
        (length - TRANSITION_START) * (large_value - small_value),
        TRANSITION_WIDTH as int,
    )
}

/// The area-to-mass ratio in each regime, from the small-object value
/// `10^n` and the large-object value `10^mixture`.
pub open spec fn am_ratio_of(lambda: int, length: int, small_value: int, large_value: int) -> int {
    match regime_of(lambda) {
        Regime::Small => small_value,
        Regime::Large => large_value,
        Regime::Transition => interpolated(length, small_value, large_value),
    }
}

/// Evaluates a clamped linear function. There is no result where the line's
/// value does not fit.
pub fn distribution_constant(
    lambda_lc: i64,
    lower: i64,
    upper: i64,
    lower_return: i64,
    upper_return: i64,
    mid: Linear,
) -> (r: Option<i64>)
    ensures
        r == narrowed(
            clamped(
                lambda_lc as int,
                lower as int,
                upper as int,
                lower_return as int,
                upper_return as int,
                mid.base as int,
                mid.slope as int,
                mid.shift as int,
            ),
        ),
{
    if lambda_lc <= lower {
        Some(lower_return)
    } else if lambda_lc >= upper {
        Some(upper_return)
    } else {
        let argument: i128 = lambda_lc as i128 + mid.shift as i128;
        let slope: i128 = mid.slope as i128;
        assert(-0x7fff_ffff_ffff_ffff_ffff_ffff_ffff_ffff <= slope * argument
            <= 0x7fff_ffff_ffff_ffff_ffff_ffff_ffff_ffff) by (nonlinear_arith)
            requires
                -0xffff_ffff_ffff_ffff <= argument <= 0xffff_ffff_ffff_ffff,
                -0x8000_0000_0000_0000 <= slope <= 0x7fff_ffff_ffff_ffff,
        ;
        let scaled: i128 = floor_div_wide(slope * argument, 1_000_000_000);
        assert(-0x7fff_ffff_ffff_ffff_ffff_ffff_ffff_ffff <= slope * argument ==> scaled
            >= -0x7fff_ffff_ffff_ffff_ffff_ffff_ffff_ffff);
        narrow(mid.base as i128 + scaled)
    }
}

/// Chooses the regime of the area-to-mass ratio.
pub fn regime(lambda_lc: i64) -> (r: Regime)
    ensures
        r == regime_of(lambda_lc as int),
{
    if lambda_lc > LARGE_BOUND {
        Regime::Large
    } else if lambda_lc < SMALL_BOUND {
        Regime::Small
    } else {
        Regime::Transition
    }
}

/// Unwraps a table value that is known to fit.
fn known(value: Option<i64>) -> (r: i64)
    requires
        value.is_some(),
    ensures
        Some(r) == value,
{
    match value {
        Some(v) => v,
        None => 0,
    }
}

/// The mixing weight of the first normal draw.
pub fn alpha(sat_kind: &SatKind, lambda_lc: i64) -> (r: i64)
    ensures
        r == alpha_of(*sat_kind, lambda_lc as int),
        0 <= r <= UNIT,
{
    match sat_kind {
        SatKind::RB => known(
            distribution_constant(
                lambda_lc,
                -1_400_000_000,
                0,
                1_000_000_000,
                500_000_000,
                Linear { base: 1_000_000_000, slope: -357_100_000, shift: 1_400_000_000 },
            ),
        ),
        _ => known(
            distribution_constant(
                lambda_lc,
                -1_950_000_000,
                550_000_000,
                0,
                1_000_000_000,
                Linear { base: 300_000_000, slope: 400_000_000, shift: 1_200_000_000 },
            ),
        ),
    }
}

/// The mean of the first normal draw.
pub fn mean_1(sat_kind: &SatKind, lambda_lc: i64) -> (r: i64)
    ensures
        r == mean_1_of(*sat_kind, lambda_lc as int),
{
    match sat_kind {
        SatKind::RB => known(
            distribution_constant(
                lambda_lc,
                -500_000_000,
                0,
                -450_000_000,
                -900_000_000,
                Linear { base: -450_000_000, slope: -900_000_000, shift: 500_000_000 },
            ),
        ),
        _ => known(
            distribution_constant(
                lambda_lc,
                -1_100_000_000,
                0,
                -600_000_000,
                -950_000_000,
                Linear { base: -600_000_000, slope: -318_309_886, shift: 1_100_000_000 },
            ),
        ),
    }
}

/// The standard deviation of the first normal draw. It is positive.
pub fn sigma_1(sat_kind: &SatKind, lambda_lc: i64) -> (r: i64)
    ensures
        r == sigma_1_of(*sat_kind, lambda_lc as int),
        r > 0,
{
    match sat_kind {
        SatKind::RB => 550_000_000,
        _ => known(
            distribution_constant(
                lambda_lc,
                -1_300_000_000,
                -300_000_000,
                100_000_000,
                300_000_000,
                Linear { base: 100_000_000, slope: 200_000_000, shift: 1_300_000_000 },
            ),
        ),
    }
}

/// The mean of the second normal draw.
pub fn mean_2(sat_kind: &SatKind, lambda_lc: i64) -> (r: i64)
    ensures
        r == mean_2_of(*sat_kind, lambda_lc as int),
{
    match sat_kind {
        SatKind::RB => -900_000_000,
        _ => known(
            distribution_constant(
                lambda_lc,
                -700_000_000,
                -100_000_000,
                -1_200_000_000,
                -2_000_000_000,
                Linear { base: -1_200_000_000, slope: -1_333_000_000, shift: 700_000_000 },
            ),
        ),
    }
}

/// The standard deviation of the second normal draw. It is positive.
pub fn sigma_2(sat_kind: &SatKind, lambda_lc: i64) -> (r: i64)
    ensures
        r == sigma_2_of(lambda_lc as int),
        r > 0,
{
    known(
        distribution_constant(
            lambda_lc,
            -500_000_000,
            -300_000_000,
            500_000_000,
            300_000_000,
            Linear { base: 500_000_000, slope: -1_000_000_000, shift: 500_000_000 },
        ),
    )
}

/// The mean of the draw of a small object.
pub fn mean_soc(lambda_lc: i64) -> (r: i64)
    ensures
        r == mean_soc_of(lambda_lc as int),
{
    known(
        distribution_constant(
            lambda_lc,
            -1_750_000_000,
            -1_250_000_000,
            -300_000_000,
            -1_000_000_000,
            Linear { base: -300_000_000, slope: -1_400_000_000, shift: 1_750_000_000 },
        ),
    )
}

/// The standard deviation of the draw of a small object. It is positive.
/// The line has no upper end: the upper bound is the largest `lambda` there
/// is, and the upper constant the line's value there.
pub fn sigma_soc(lambda_lc: i64) -> (r: i64)
    ensures
        r == sigma_soc_of(lambda_lc as int),
        r > 0,
{
    known(
        distribution_constant(
            lambda_lc,
            -3_500_000_000,
            i64::MAX,
            200_000_000,
            SIGMA_SOC_CEILING,
            Linear { base: 200_000_000, slope: 133_300_000, shift: 3_500_000_000 },
        ),
    )
}

/// Mixes the two normal draws of a large object into the exponent of its
/// value: `alpha * first + (1 - alpha) * second`.
pub fn mixture(sat_kind: &SatKind, lambda_lc: i64, first: i64, second: i64) -> (r: Option<i64>)
    ensures
        r == narrowed(mixture_of(*sat_kind, lambda_lc as int, first as int, second as int)),
{
    let weight: i64 = alpha(sat_kind, lambda_lc);
    let left: i128 = product_wide(weight, first);
    let right: i128 = product_wide(UNIT - weight, second);
    proof {
        lemma_weighted_bound(weight as int, first as int);
        lemma_weighted_bound(UNIT - weight, second as int);
    }
    narrow(left + right)
}

/// A value weighted by at most one stays within 64 bits.
proof fn lemma_weighted_bound(weight: int, value: int)
    requires
        0 <= weight <= UNIT,
        fits(value),
    ensures
        -0x8000_0000_0000_0000 <= product(weight, value) <= 0x8000_0000_0000_0000,
{
    assert(-0x8000_0000_0000_0000 * 1_000_000_000 <= weight * value <= 0x8000_0000_0000_0000
        * 1_000_000_000) by (nonlinear_arith)
        requires
            0 <= weight <= 1_000_000_000,
            -0x8000_0000_0000_0000 <= value <= 0x8000_0000_0000_0000,
    ;
}

/// A product beyond 128 bits, divided by the transition width, is still
/// beyond 65 bits.
proof fn lemma_interpolation_overflow(p: int)
    requires
        p > i128::MAX || p < i128::MIN,
    ensures
        floor_div(p, TRANSITION_WIDTH as int) > 0x2_0000_0000_0000_0000 || floor_div(
            p,
            TRANSITION_WIDTH as int,
        ) < -0x2_0000_0000_0000_0000,
{
}

/// Interpolates across the transition band:
/// `small + (length - 0.08) * (large - small) / 0.03`.
pub fn interpolate(characteristic_len: i64, small_value: i64, large_value: i64) -> (r: Option<i64>)
    ensures
        r == narrowed(
            interpolated(characteristic_len as int, small_value as int, large_value as int),
        ),
{
    let offset: i128 = characteristic_len as i128 - TRANSITION_START as i128;
    let rise: i128 = large_value as i128 - small_value as i128;
    match offset.checked_mul(rise) {
        Some(wide) => {
            if wide == i128::MIN {
                return None;
            }
            let step: i128 = floor_div_wide(wide, TRANSITION_WIDTH as i128);
            narrow(small_value as i128 + step)
        },
        None => {
            proof {
                lemma_interpolation_overflow(offset as int * rise as int);
            }
            None
        },
    }
}

/// The area-to-mass ratio of a fragment, from the value of each regime
/// that applies.
///
/// * `lambda_lc` - the logarithm of the characteristic length to base 10
/// * `characteristic_len` - the characteristic length [m]
/// * `small_value` - 10 raised to the draw of a small object
/// * `large_value` - 10 raised to the mixture of the draws of a large object
pub fn am_ratio(lambda_lc: i64, characteristic_len: i64, small_value: i64, large_value: i64) -> (r:
    Option<i64>)
    ensures
        r == narrowed(
            am_ratio_of(
                lambda_lc as int,
                characteristic_len as int,
                small_value as int,
                large_value as int,
            ),
        ),
{
    match regime(lambda_lc) {
        Regime::Small => Some(small_value),
        Regime::Large => Some(large_value),
        Regime::Transition => interpolate(characteristic_len, small_value, large_value),
    }
}

/// The mixing weight is a weight: it lies between zero and one.
pub proof fn lemma_alpha_is_weight(kind: SatKind, lambda: int)
    ensures
        0 <= alpha_of(kind, lambda) <= UNIT,
{
}

/// No normal draw of the model is asked for with a standard deviation that
/// is not positive.
pub proof fn lemma_deviations_positive(kind: SatKind, lambda: int)
    ensures
        sigma_1_of(kind, lambda) > 0,
        sigma_2_of(lambda) > 0,
        sigma_soc_of(lambda) > 0,
{
}

/// Every mean and every standard deviation stays within the range that its
/// two constants span, or within a thousandth of it where the line does not
/// quite meet the upper constant.
pub proof fn lemma_parameter_ranges(kind: SatKind, lambda: int)
    ensures
        -951_000_000 <= mean_1_of(kind, lambda) <= -450_000_000,
        100_000_000 <= sigma_1_of(kind, lambda) <= 550_000_000,
        -2_000_000_000 <= mean_2_of(kind, lambda) <= -900_000_000,
        300_000_000 <= sigma_2_of(lambda) <= 500_000_000,
        -1_000_000_000 <= mean_soc_of(lambda) <= -300_000_000,
        200_000_000 <= sigma_soc_of(lambda),
{
}

/// The shortest length of the transition band: ten to the power 0.08,
/// rounded down.
pub const BAND_START: i64 = 1_202_264_434;

/// The longest length of the transition band: ten to the power 0.11,
/// rounded up.
pub const BAND_END: i64 = 1_288_249_552;

/// The line of the transition formula starts at the small-object value at
/// the length 0.08 and passes through the large-object value at the length
/// 0.11. Neither length lies in the band, which is chosen by the logarithm
/// of the length: both belong to the small regime.
pub proof fn lemma_transition_meets_regimes(small_value: int, large_value: int)
    ensures
        interpolated(TRANSITION_START as int, small_value, large_value) == small_value,
        interpolated(TRANSITION_START + TRANSITION_WIDTH, small_value, large_value)
            == large_value,
{
    let rise = large_value - small_value;
    assert(0 * rise == 0);
    assert((TRANSITION_START + TRANSITION_WIDTH - TRANSITION_START) * rise == 30_000_000 * rise);
    assert((30_000_000 * rise) / 30_000_000 == rise);
}

/// Within the band, whose lengths run from 1.2023 to 1.2882, the line is
/// followed between 37 and 41 times as far as from the small-object value
/// to the large-object value: the formula meets neither value there, and
/// where the large-object value is the smaller one by more than a 37th of
/// the small-object value, it gives a ratio below zero.
pub proof fn lemma_transition_in_band(length: int, small_value: int, large_value: int)
    requires
        BAND_START <= length <= BAND_END,
    ensures
        large_value >= small_value ==> small_value + 37 * (large_value - small_value)
            <= interpolated(length, small_value, large_value) <= small_value + 41 * (large_value
            - small_value),
        large_value <= small_value ==> small_value + 41 * (large_value - small_value)
            <= interpolated(length, small_value, large_value) <= small_value + 37 * (large_value
            - small_value),
        small_value > 0 && 37 * (small_value - large_value) > small_value ==> interpolated(
            length,
            small_value,
            large_value,
        ) < 0,
{
    let rise = large_value - small_value;
    let offset = length - TRANSITION_START;
    assert(rise >= 0 ==> 1_110_000_000 * rise <= offset * rise <= 1_230_000_000 * rise)
        by (nonlinear_arith)
        requires
            1_110_000_000 <= offset <= 1_230_000_000,
    ;
    assert(rise <= 0 ==> 1_230_000_000 * rise <= offset * rise <= 1_110_000_000 * rise)
        by (nonlinear_arith)
        requires
            1_110_000_000 <= offset <= 1_230_000_000,
    ;
}

} // verus!
