//! Space objects and their classes.

use crate::error::ModelError;
use crate::fixed::LIMIT;
use vstd::prelude::*;

verus! {

/// The class of a space object: rocket body, other structural class, spacecraft.
#[derive(Clone, Copy, Debug, PartialEq, Eq, Structural)]
pub enum SatKind {
    RB,
    SOC,
    SC,
}

impl SatKind {
    /// The class that an integer code stands for, if any.
    pub open spec fn of_code(code: int) -> Option<SatKind> {
        if code == 0 {
            Some(SatKind::RB)
        } else if code == 1 {
            Some(SatKind::SOC)
        } else if code == 2 {
            Some(SatKind::SC)
        } else {
            None
        }
    }

    /// Reads a class from its integer code. Any code but 0, 1 and 2 is
    /// rejected, and the error carries the code.
    pub fn from(code: i32) -> (r: Result<SatKind, ModelError>)
        ensures
            match r {
                Ok(kind) => SatKind::of_code(code as int) == Some(kind),
                Err(e) => SatKind::of_code(code as int).is_none() && e == ModelError::InvalidSatKind(
                    code,
                ),
            },
    {
        match code {
            0 => Ok(SatKind::RB),
            1 => Ok(SatKind::SOC),
            2 => Ok(SatKind::SC),
            _ => Err(ModelError::InvalidSatKind(code)),
        }
    }
}

/// A vector of three fixed-point components.
#[derive(Clone, Copy, Debug, PartialEq, Eq, Structural)]
pub struct Vector3 {
    pub x: i64,
    pub y: i64,
    pub z: i64,
}

impl Vector3 {
    /// Every component lies within `bound` of zero.
    pub open spec fn within(self, bound: int) -> bool {
        &&& -bound <= self.x <= bound
        &&& -bound <= self.y <= bound
        &&& -bound <= self.z <= bound
    }

    pub fn is_within(&self, bound: i64) -> (r: bool)
        requires
            bound >= 0,
        ensures
            r == self.within(bound as int),
    {
        -bound <= self.x && self.x <= bound && -bound <= self.y && self.y <= bound && -bound
            <= self.z && self.z <= bound
    }
}

/// A space object: position [m], velocity [km/s], mass [kg], characteristic
/// length [m] and class, the numbers in billionths. The velocity is held in
/// the unit in which the model reads speeds: the length of the difference of
/// two satellites' velocities is the impact speed of their collision, and
/// the catastrophic test reads it in km/s. A caller that holds velocities in
/// m/s divides them by a thousand first.
#[derive(Clone, Copy, Debug, PartialEq, Eq, Structural)]
pub struct Satellite {
    pub position: Vector3,
    pub velocity: Vector3,
    pub mass: i64,
    pub characteristic_length: i64,
    pub sat_kind: SatKind,
}

impl Satellite {
    /// Every field lies within `LIMIT` of zero, so that sums and squared
    /// differences of two satellites' fields can be held exactly.
    pub open spec fn in_range(self) -> bool {
        &&& self.position.within(LIMIT as int)
        &&& self.velocity.within(LIMIT as int)
        &&& -LIMIT <= self.mass <= LIMIT
        &&& -LIMIT <= self.characteristic_length <= LIMIT
    }

    pub fn is_in_range(&self) -> (r: bool)
        ensures
            r == self.in_range(),
    {
        self.position.is_within(LIMIT) && self.velocity.is_within(LIMIT) && -LIMIT <= self.mass
            && self.mass <= LIMIT && -LIMIT <= self.characteristic_length
            && self.characteristic_length <= LIMIT
    }
}

} // verus!
