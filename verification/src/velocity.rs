//! The velocity of a fragment: a speed drawn around a mean that depends on
//! the area-to-mass ratio, along a random direction.

use crate::fixed::fits;
use crate::fixed::multiply;
use crate::fixed::narrow;
use crate::fixed::narrowed;
use crate::fixed::product;
use crate::fixed::product_wide;
use crate::fixed::UNIT;
use crate::satellite::Vector3;
use vstd::prelude::*;

verus! {

/// The standard deviation 0.4 of the speed of a fragment.
pub const SPEED_DEVIATION: i64 = 400_000_000;

/// The mean speed of a fragment, `c0 * chi + c1`, for
/// `chi = log10(area / mass)`.
pub open spec fn speed_mean_of(c0: int, c1: int, chi: int) -> int {
    product(c0, chi) + c1
}

/// A speed along a direction, component by component.
pub open spec fn velocity_of(speed: int, direction: Vector3) -> Vector3 {
    Vector3 {
        x: product(speed, direction.x as int) as i64,
        y: product(speed, direction.y as int) as i64,
        z: product(speed, direction.z as int) as i64,
    }
}

/// Computes the mean of the speed of a fragment from the two offset
/// coefficients of its event. There is none where it does not fit.
pub fn speed_mean(offset: (i64, i64), chi: i64) -> (r: Option<i64>)
    ensures
        r == narrowed(speed_mean_of(offset.0 as int, offset.1 as int, chi as int)),
{
    narrow(product_wide(offset.0, chi) + offset.1 as i128)
}

/// How far the square of a direction's length may lie from one: a
/// millionth, which leaves room for a direction computed in single precision.
pub const DIRECTION_TOLERANCE: i64 = 1_000_000_000_000;

/// The square of the length of a vector, in billionths of a billionth.
pub open spec fn squared_length(v: Vector3) -> int {
    v.x * v.x + v.y * v.y + v.z * v.z
}

/// Whether a vector is a direction: of length one, to the tolerance.
pub open spec fn is_direction(v: Vector3) -> bool {
    UNIT * UNIT - DIRECTION_TOLERANCE <= squared_length(v) <= UNIT * UNIT + DIRECTION_TOLERANCE
}

/// Tells whether a vector is a direction.
pub fn is_unit(v: &Vector3) -> (r: bool)
    ensures
        r == is_direction(*v),
{
    let x: i128 = v.x as i128;
    let y: i128 = v.y as i128;
    let z: i128 = v.z as i128;
    assert(x * x >= 0 && y * y >= 0 && z * z >= 0) by (nonlinear_arith);
    if !v.is_within(2 * UNIT) {
        assert(x * x + y * y + z * z > 4_000_000_000_000_000_000) by (nonlinear_arith)
            requires
                x * x >= 0 && y * y >= 0 && z * z >= 0,
                x > 2_000_000_000 || x < -2_000_000_000 || y > 2_000_000_000 || y
                    < -2_000_000_000 || z > 2_000_000_000 || z < -2_000_000_000,
        ;
        return false;
    }
    assert(x * x <= 4_000_000_000_000_000_000 && y * y <= 4_000_000_000_000_000_000 && z * z
        <= 4_000_000_000_000_000_000) by (nonlinear_arith)
        requires
            -2_000_000_000 <= x <= 2_000_000_000,
            -2_000_000_000 <= y <= 2_000_000_000,
            -2_000_000_000 <= z <= 2_000_000_000,
    ;
    let square: i128 = x * x + y * y + z * z;
    999_999_000_000_000_000 <= square && square <= 1_000_001_000_000_000_000
}

/// Whether every component of a speed along a direction fits.
pub open spec fn velocity_fits(speed: int, direction: Vector3) -> bool {
    &&& fits(product(speed, direction.x as int))
    &&& fits(product(speed, direction.y as int))
    &&& fits(product(speed, direction.z as int))
}

/// Gives a speed its direction. What is no direction has no velocity; nor
/// is there one where a component of the velocity does not fit.
pub fn velocity(speed: i64, direction: Vector3) -> (r: Option<Vector3>)
    ensures
        r == if is_direction(direction) && velocity_fits(speed as int, direction) {
            Some(velocity_of(speed as int, direction))
        } else {
            None
        },
{
    if !is_unit(&direction) {
        return None;
    }
    match (multiply(speed, direction.x), multiply(speed, direction.y), multiply(speed, direction.z)) {
        (Some(x), Some(y), Some(z)) => Some(Vector3 { x, y, z }),
        _ => None,
    }
}

} // verus!
