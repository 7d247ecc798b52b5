//! The empirical regressions of the model: fragment area from length, the
//! catastrophic-collision test, fragment counts, and the power law by which
//! fragment lengths are drawn.

use crate::error::Cause;
use crate::error::ModelError;
use crate::error::Stage;
use crate::fixed::fits;
use crate::fixed::fits_wide;
use crate::fixed::floor_div_wide;
use crate::fixed::lemma_product_bound;
use crate::fixed::multiply;
use crate::fixed::narrow;
use crate::fixed::narrowed;
use crate::fixed::product;
use crate::fixed::product_wide;
use crate::fixed::quotient;
use crate::fixed::scaled_quotient;
use crate::fixed::widened;
use crate::fixed::UNIT;
use vstd::arithmetic::div_mod::lemma_fundamental_div_mod;
use vstd::prelude::*;

verus! {

/// Lengths below 0.00167 m follow the square law for area.
pub const AREA_BOUND: i64 = 1_670_000;

/// The factor 0.540424 of the square law, in millionths.
pub const AREA_SMALL_FACTOR: i64 = 540_424;

/// The factor 0.556945 of the power law for area, in millionths.
pub const AREA_LARGE_FACTOR: i64 = 556_945;

/// The exponent 2.0047077 of the power law for area.
pub const AREA_LARGE_EXPONENT: i64 = 2_004_707_700;

/// The longest length below zero whose square law fits: beyond it the area
/// has no representation.
pub const AREA_REACH: i64 = 17_743_423_191_386_039;

/// A collision is catastrophic above 40 J/g.
pub const CATASTROPHIC_THRESHOLD: i64 = 40;

/// The factor 0.1 of the collision fragment count.
pub const COLLISION_FACTOR: i64 = 100_000_000;

/// The exponent 0.75 of the mass in the collision fragment count.
pub const COLLISION_MASS_EXPONENT: i64 = 750_000_000;

/// The exponent -1.71 of the length in the collision fragment count.
pub const COLLISION_LENGTH_EXPONENT: i64 = -1_710_000_000;

/// The factor 6 of the explosion fragment count.
pub const EXPLOSION_FACTOR: i64 = 6_000_000_000;

/// The scaling factor of an explosion, fixed at 1.
pub const EXPLOSION_SCALING: i64 = 1_000_000_000;

/// The exponent -1.6 of the length in the explosion fragment count.
pub const EXPLOSION_LENGTH_EXPONENT: i64 = -1_600_000_000;

/// How the area of a fragment is to be had.
#[derive(Clone, Copy, Debug, PartialEq, Eq, Structural)]
pub enum AreaPlan {
    /// Below the bound the area is a product, and here it is, in units of
    /// `1e-24` m^2.
    Known(i128),
    /// At or above the bound the area is a factor times the length raised to
    /// `AREA_LARGE_EXPONENT`, and the power is the host's to compute.
    NeedsPower,
}

/// The area of a fragment shorter than the bound: 0.540424 times the square
/// of the length. In units of `1e-24` m^2, for a length in billionths of a
/// metre, nothing is rounded.
pub open spec fn area_small(length: int) -> int {
    AREA_SMALL_FACTOR * (length * length)
}

/// The area of a fragment at or above the bound: 0.556945 times
/// `length ^ 2.0047077`. In units of `1e-24` m^2, for a power in units of
/// `1e-18`, nothing is rounded.
pub open spec fn area_large(power: int) -> int {
    AREA_LARGE_FACTOR * power
}

/// Which law gives the area of a fragment of this length, and the area
/// where it is the square law. Zero and the lengths below it follow the
/// square law as well; far below zero its value does not fit.
pub open spec fn area_plan(length: int) -> Result<AreaPlan, ModelError> {
    if length >= AREA_BOUND {
        Ok(AreaPlan::NeedsPower)
    } else if fits_wide(area_small(length)) {
        Ok(AreaPlan::Known(area_small(length) as i128))
    } else {
        Err(ModelError::Failed { stage: Stage::Area, cause: Cause::OutOfRange })
    }
}

/// The square law fits exactly for the lengths within reach.
proof fn lemma_area_reach(length: int)
    ensures
        -AREA_REACH <= length <= AREA_REACH ==> 0 <= area_small(length) <= i128::MAX,
        length < -AREA_REACH || length > AREA_REACH ==> area_small(length) > i128::MAX,
{
    let t: int = 17_743_423_191_386_039;
    assert(540_424 * (t * t) <= 0x7fff_ffff_ffff_ffff_ffff_ffff_ffff_ffff) by (nonlinear_arith)
        requires
            t == 17_743_423_191_386_039,
    ;
    assert(540_424 * ((t + 1) * (t + 1)) > 0x7fff_ffff_ffff_ffff_ffff_ffff_ffff_ffff)
        by (nonlinear_arith)
        requires
            t == 17_743_423_191_386_039,
    ;
    if -t <= length <= t {
        assert(0 <= length * length <= t * t) by (nonlinear_arith)
            requires
                -t <= length <= t,
        ;
    } else {
        assert(length * length >= (t + 1) * (t + 1)) by (nonlinear_arith)
            requires
                length <= -(t + 1) || length >= t + 1,
                t >= 0,
        ;
    }
}

/// Chooses the area law for a length. Below the bound the area comes back
/// at once, by the square law; at or above it the area needs the host's
/// power. There is no area only where that of the square law does not fit,
/// far below zero.
pub fn area(length: i64) -> (r: Result<AreaPlan, ModelError>)
    ensures
        r == area_plan(length as int),
        0 <= length < AREA_BOUND ==> r == Ok::<AreaPlan, ModelError>(
            AreaPlan::Known(area_small(length as int) as i128),
        ) && fits_wide(area_small(length as int)),
        0 < length < AREA_BOUND ==> (r matches Ok(AreaPlan::Known(a)) && a > 0),
{
    proof {
        lemma_area_reach(length as int);
        lemma_area_small_positive(length as int);
    }
    if length >= AREA_BOUND {
        Ok(AreaPlan::NeedsPower)
    } else if length < -AREA_REACH {
        Err(ModelError::Failed { stage: Stage::Area, cause: Cause::OutOfRange })
    } else {
        let wide: i128 = length as i128;
        assert(0 <= wide * wide <= 17_743_423_191_386_039 * 17_743_423_191_386_039)
            by (nonlinear_arith)
            requires
                -17_743_423_191_386_039 <= wide <= 17_743_423_191_386_039,
        ;
        let square: i128 = wide * wide;
        Ok(AreaPlan::Known((AREA_SMALL_FACTOR as i128) * square))
    }
}

/// The area of a fragment at or above the bound, once the host has raised
/// its length to `AREA_LARGE_EXPONENT`. There is none where it does not fit.
///
/// * `power` - the power, in units of `1e-18`
pub fn area_from_power(power: i128) -> (r: Option<i128>)
    ensures
        r == widened(area_large(power as int)),
{
    power.checked_mul(AREA_LARGE_FACTOR as i128)
}

/// Below the bound a longer fragment has the larger area.
pub proof fn lemma_area_small_increasing(shorter: int, longer: int)
    requires
        0 <= shorter < longer,
    ensures
        area_small(shorter) < area_small(longer),
{
    assert(shorter * shorter < longer * longer) by (nonlinear_arith)
        requires
            0 <= shorter < longer,
    ;
}

/// The square law gives no area at the length zero and an area above zero
/// at every other length.
pub proof fn lemma_area_small_positive(length: int)
    ensures
        area_small(0) == 0,
        length != 0 ==> area_small(length) > 0,
{
    assert(length != 0 ==> length * length > 0) by (nonlinear_arith);
}

/// At or above the bound the area grows with the power, and is above zero
/// exactly where the power is.
pub proof fn lemma_area_large_increasing(smaller: int, larger: int)
    requires
        smaller < larger,
    ensures
        area_large(smaller) < area_large(larger),
        area_large(larger) > 0 <==> larger > 0,
{
}

/// The two laws meet at the bound to one part in ten thousand: where the
/// power of the bound is 2.7062e-6 to five places, as `0.00167 ^ 2.0047077`
/// is, the area of the power law lies within a ten-thousandth of that of the
/// square law.
pub proof fn lemma_area_laws_meet(power: int)
    requires
        2_706_150_000_000 <= power <= 2_706_250_000_000,
    ensures
        area_small(AREA_BOUND as int) == 1_507_188_493_600_000_000,
        area_small(AREA_BOUND as int) - 150_718_849_360_000 <= area_large(power) <= area_small(
            AREA_BOUND as int,
        ) + 150_718_849_360_000,
{
    assert(1_670_000int * 1_670_000int == 2_788_900_000_000int) by (nonlinear_arith);
}

/// The mass of a fragment: its area over its area-to-mass ratio. For an
/// area in units of `1e-24` m^2 and a ratio in billionths of a m^2/kg, it is
/// in units of `1e-24` kg, rounded down.
pub open spec fn mass_of(area: int, am_ratio: int) -> int {
    quotient(area, am_ratio)
}

/// Returns the mass of a fragment. There is none where the ratio is zero
/// or the quotient does not fit.
pub fn mass(area: i128, am_ratio: i64) -> (r: Option<i128>)
    ensures
        r == if am_ratio == 0 {
            None
        } else {
            widened(mass_of(area as int, am_ratio as int))
        },
{
    if am_ratio == 0 {
        None
    } else if area == i128::MIN {
        let half: i128 = area / 2;
        assert(half * 2_000_000_000 == area * 1_000_000_000) by (nonlinear_arith)
            requires
                half * 2 == area,
        ;
        scaled_quotient(half, 2_000_000_000, am_ratio as i128)
    } else {
        scaled_quotient(area, 1_000_000_000, am_ratio as i128)
    }
}

/// A mass is above zero exactly where the area, a billion times over, is
/// no less than the ratio. That holds of every ratio above zero and every
/// area of at least `1e-14` m^2, which is less than the area of a fragment
/// one millionth of a metre long.
pub proof fn lemma_mass_positive(area: int, am_ratio: int)
    requires
        am_ratio > 0,
    ensures
        mass_of(area, am_ratio) > 0 <==> area * UNIT >= am_ratio,
        area >= 10_000_000_000 && am_ratio <= i64::MAX ==> mass_of(area, am_ratio) > 0,
        area_small(1000) >= 10_000_000_000,
{
    let n = area * UNIT;
    lemma_fundamental_div_mod(n, am_ratio);
    vstd::arithmetic::div_mod::lemma_mod_bound(n, am_ratio);
    let q = n / am_ratio;
    if q > 0 {
        assert(am_ratio * q >= am_ratio) by (nonlinear_arith)
            requires
                am_ratio > 0,
                q >= 1,
        ;
    } else {
        assert(am_ratio * q <= 0) by (nonlinear_arith)
            requires
                am_ratio > 0,
                q <= 0,
        ;
    }
    assert(1000int * 1000int == 1_000_000int) by (nonlinear_arith);
}

/// Whether a collision is catastrophic. The relative kinetic energy per unit
/// of target mass is `500 * m_proj * v^2 / m_targ` J/g for masses in kg and
/// a speed in km/s; it is compared with the threshold as real numbers are,
/// with nothing rounded. Over a target of no mass the energy is infinite if
/// it is positive, and undefined, hence not above the threshold, if it is not.
pub open spec fn catastrophic(m_proj: int, m_targ: int, v_impact: int) -> bool {
    let energy = m_proj * (v_impact * v_impact);
    let weight = m_targ * (UNIT as int * UNIT as int);
    if m_targ >= 0 {
        500 * energy > CATASTROPHIC_THRESHOLD * weight
    } else {
        500 * energy < CATASTROPHIC_THRESHOLD * weight
    }
}

/// With a positive divisor, a product exceeds a bound exactly when the other
/// factor exceeds the bound's quotient.
proof fn lemma_product_exceeds(p: int, q: int, t: int)
    requires
        p > 0,
    ensures
        (p * q > t) <==> (q > t / p),
{
    lemma_fundamental_div_mod(t, p);
    let d = t / p;
    let r = t % p;
    assert(0 <= r < p) by {
        vstd::arithmetic::div_mod::lemma_mod_bound(t, p);
    }
    if q > d {
        assert(p * q >= p * d + p) by (nonlinear_arith)
            requires
                p > 0,
                q >= d + 1,
        ;
    } else {
        assert(p * q <= p * d) by (nonlinear_arith)
            requires
                p > 0,
                q <= d,
        ;
    }
}

/// Returns true if a collision is catastrophic.
///
/// * `m_proj` - the mass of the projectile [kg]
/// * `m_targ` - the mass of the target [kg]
/// * `v_impact` - the impact speed [km/s]
pub fn is_catastrophic(m_proj: i64, m_targ: i64, v_impact: i64) -> (r: bool)
    ensures
        r == catastrophic(m_proj as int, m_targ as int, v_impact as int),
{
    proof {
        lemma_product_bound(v_impact as int, v_impact as int);
    }
    let speed: i128 = v_impact as i128;
    let square: i128 = speed * speed;
    assert(square >= 0) by (nonlinear_arith)
        requires
            square == speed * speed,
    ;
    let weight: i128 = (2 * (m_targ as i128)) * 1_000_000_000_000_000_000;
    let force: i128 = 25 * (m_proj as i128);
    proof {
        let energy = m_proj as int * (v_impact as int * v_impact as int);
        assert(force * square == 25 * energy) by (nonlinear_arith)
            requires
                force == 25 * m_proj,
                square == v_impact * v_impact,
                energy == m_proj * (v_impact * v_impact),
        ;
        assert((-force) * square == -(force * square)) by (nonlinear_arith);
        if force <= 0 {
            assert(force * square <= 0) by (nonlinear_arith)
                requires
                    force <= 0,
                    square >= 0,
            ;
        }
        if force >= 0 {
            assert(force * square >= 0) by (nonlinear_arith)
                requires
                    force >= 0,
                    square >= 0,
            ;
        }
    }
    if m_targ >= 0 {
        if force <= 0 {
            false
        } else {
            proof {
                lemma_product_exceeds(force as int, square as int, weight as int);
            }
            square > weight / force
        }
    } else {
        if force >= 0 {
            false
        } else {
            proof {
                lemma_product_exceeds(-force as int, square as int, -weight as int);
            }
            square > (-weight) / (-force)
        }
    }
}

/// Raising the impact speed never turns a catastrophic collision into one
/// that is not.
pub proof fn lemma_catastrophic_monotonic(m_proj: int, m_targ: int, slower: int, faster: int)
    requires
        0 <= slower <= faster,
        catastrophic(m_proj, m_targ, slower),
    ensures
        catastrophic(m_proj, m_targ, faster),
{
    let low = slower * slower;
    let high = faster * faster;
    let scale = UNIT as int * UNIT as int;
    assert(0 <= low <= high) by (nonlinear_arith)
        requires
            0 <= slower <= faster,
            low == slower * slower,
            high == faster * faster,
    ;
    assert(scale == 1_000_000_000_000_000_000);
    assert(m_targ >= 0 ==> m_targ * scale >= 0) by (nonlinear_arith)
        requires
            scale > 0,
    ;
    assert(m_targ < 0 ==> m_targ * scale < 0) by (nonlinear_arith)
        requires
            scale > 0,
    ;
    assert(m_proj >= 0 ==> 0 <= m_proj * low <= m_proj * high) by (nonlinear_arith)
        requires
            0 <= low <= high,
    ;
    assert(m_proj < 0 ==> m_proj * high <= m_proj * low <= 0) by (nonlinear_arith)
        requires
            0 <= low <= high,
    ;
}

/// The mass that the collision fragment count is taken of: both masses
/// together where the collision is catastrophic, the projectile's mass times
/// the impact speed where it is not.
pub open spec fn mass_basis(m_proj: int, m_targ: int, v_impact: int) -> int {
    if catastrophic(m_proj, m_targ, v_impact) {
        m_proj + m_targ
    } else {
        product(m_proj, v_impact)
    }
}

/// Computes the mass basis of a collision. There is none where the exact
/// value does not fit.
pub fn collision_mass_basis(m_proj: i64, m_targ: i64, v_impact: i64) -> (r: Option<i64>)
    ensures
        r == narrowed(mass_basis(m_proj as int, m_targ as int, v_impact as int)),
{
    if is_catastrophic(m_proj, m_targ, v_impact) {
        narrow(m_proj as i128 + m_targ as i128)
    } else {
        multiply(m_proj, v_impact)
    }
}

/// The fragment count of a collision, `0.1 * M^0.75 * Lmin^-1.71`, from the
/// two powers.
pub open spec fn collision_count(mass_power: int, length_power: int) -> int {
    product(product(COLLISION_FACTOR as int, mass_power), length_power)
}

/// The fragment count of an explosion, `6 * S * Lmin^-1.6`, from the power.
pub open spec fn explosion_count(length_power: int) -> int {
    product(product(EXPLOSION_FACTOR as int, EXPLOSION_SCALING as int), length_power)
}

/// Returns the fragment count of a collision before it is rounded down.
///
/// * `mass_power` - the mass basis raised to 0.75
/// * `length_power` - the minimum characteristic length raised to -1.71
pub fn num_frag_collision(mass_power: i64, length_power: i64) -> (r: Option<i64>)
    ensures
        r == narrowed(collision_count(mass_power as int, length_power as int)),
{
    let scaled: i128 = product_wide(COLLISION_FACTOR, mass_power);
    multiply(scaled as i64, length_power)
}

/// Returns the fragment count of an explosion before it is rounded down.
///
/// * `length_power` - the minimum characteristic length raised to -1.6
pub fn num_frag_explosion(length_power: i64) -> (r: Option<i64>)
    ensures
        r == narrowed(explosion_count(length_power as int)),
{
    let scaled: i128 = product_wide(EXPLOSION_FACTOR, EXPLOSION_SCALING);
    multiply(scaled as i64, length_power)
}

/// The number of fragments that a count stands for: the count rounded down,
/// and none where the count is missing or negative.
pub open spec fn whole_fragments(count: Option<i64>) -> int {
    match count {
        Some(c) => if c >= 0 {
            c as int / UNIT as int
        } else {
            0
        },
        None => 0,
    }
}

/// Rounds a fragment count down to a whole number of fragments. A count
/// that is missing or negative stands for no fragments.
pub fn fragment_total(count: Option<i64>) -> (r: u64)
    ensures
        r == whole_fragments(count),
{
    match count {
        Some(c) => {
            if c >= 0 {
                (c / UNIT) as u64
            } else {
                0
            }
        },
        None => 0,
    }
}

/// The two exponents of the power law for an exponent `n`: `n + 1`, and its
/// inverse.
pub open spec fn shifted_exponent(exponent: int) -> int {
    exponent + UNIT
}

pub open spec fn inverse_exponent(exponent: int) -> int {
    quotient(UNIT as int, shifted_exponent(exponent))
}

/// Prepares the power law for an exponent `n`: returns `n + 1` and
/// `1 / (n + 1)`. The exponent -1 has no inverse and is refused, as is one
/// so large that `n + 1` does not fit.
pub fn power_law_exponents(exponent: i64) -> (r: Result<(i64, i64), ModelError>)
    ensures
        shifted_exponent(exponent as int) == 0 ==> r == Err::<(i64, i64), ModelError>(
            ModelError::Failed { stage: Stage::Length, cause: Cause::DegenerateExponent },
        ),
        !fits(shifted_exponent(exponent as int)) ==> r == Err::<(i64, i64), ModelError>(
            ModelError::Failed { stage: Stage::Length, cause: Cause::OutOfRange },
        ),
        shifted_exponent(exponent as int) != 0 && fits(shifted_exponent(exponent as int)) ==> r
            == Ok::<(i64, i64), ModelError>(
            (shifted_exponent(exponent as int) as i64, inverse_exponent(exponent as int) as i64),
        ) && fits(inverse_exponent(exponent as int)),
{
    if exponent == -UNIT {
        return Err(ModelError::Failed { stage: Stage::Length, cause: Cause::DegenerateExponent });
    }
    if exponent > i64::MAX - UNIT {
        return Err(ModelError::Failed { stage: Stage::Length, cause: Cause::OutOfRange });
    }
    let shifted: i64 = exponent + UNIT;
    let wide: i128 = floor_div_wide(1_000_000_000_000_000_000, shifted as i128);
    proof {
        lemma_inverse_fits(shifted as int);
    }
    Ok((shifted, wide as i64))
}

/// The inverse of a non-zero quantity lies within a billion of zero.
proof fn lemma_inverse_fits(shifted: int)
    requires
        shifted != 0,
    ensures
        -1_000_000_000_000_000_000 <= quotient(UNIT as int, shifted)
            <= 1_000_000_000_000_000_000,
{
    let n: int = 1_000_000_000_000_000_000;
    assert(UNIT as int * UNIT as int == n);
    if shifted > 0 {
        vstd::arithmetic::div_mod::lemma_div_pos_is_pos(n, shifted);
        vstd::arithmetic::div_mod::lemma_div_is_ordered_by_denominator(n, 1, shifted);
        assert(n / 1 == n);
    } else {
        let d = -shifted;
        let q = (-n) / d;
        let r = (-n) % d;
        lemma_fundamental_div_mod(-n, d);
        vstd::arithmetic::div_mod::lemma_mod_bound(-n, d);
        assert(-n == d * q + r);
        if q < -n {
            assert(d * q + d <= -n) by (nonlinear_arith)
                requires
                    d >= 1,
                    q + 1 <= -n,
                    n >= 0,
            ;
        }
        if q > 0 {
            assert(d * q >= 1) by (nonlinear_arith)
                requires
                    d >= 1,
                    q >= 1,
            ;
        }
        assert(quotient(UNIT as int, shifted) == q);
    }
}

/// The base of the power law's last power for a uniform draw `y`:
/// `x1^(n+1) - x0^(n+1) * y + x0^(n+1)`.
pub open spec fn power_law_base(lower_power: int, upper_power: int, y: int) -> int {
    upper_power - product(lower_power, y) + lower_power
}

/// Computes the base of the power law's last power. Raised to `1 / (n + 1)`
/// it is the sampled length.
///
/// * `lower_power` - the minimum characteristic length raised to `n + 1`
/// * `upper_power` - the maximum characteristic length raised to `n + 1`
/// * `y` - a uniform draw from `[0, 1]`
pub fn power_law(lower_power: i64, upper_power: i64, y: i64) -> (r: Option<i64>)
    ensures
        r == narrowed(power_law_base(lower_power as int, upper_power as int, y as int)),
{
    let scaled: i128 = product_wide(lower_power, y);
    narrow((upper_power as i128) - scaled + (lower_power as i128))
}

/// For a draw from `[0, 1]` and a power that is not negative, the base lies
/// between the upper power and the sum of both.
pub proof fn lemma_power_law_base_range(lower_power: int, upper_power: int, y: int)
    requires
        0 <= y <= UNIT,
        0 <= lower_power,
    ensures
        upper_power <= power_law_base(lower_power, upper_power, y) <= upper_power + lower_power,
        power_law_base(lower_power, upper_power, UNIT as int) == upper_power,
        power_law_base(lower_power, upper_power, 0) == upper_power + lower_power,
{
    assert(0 <= lower_power * y <= lower_power * UNIT) by (nonlinear_arith)
        requires
            0 <= y <= UNIT,
            0 <= lower_power,
    ;
    assert(lower_power * 0 == 0);
}

} // verus!
