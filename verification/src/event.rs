//! Fragmentation events: a collision of two satellites, or the explosion of one.

use crate::error::ModelError;
use crate::fixed::floor_sqrt;
use crate::fixed::is_floor_sqrt;
use crate::fixed::narrowed;
use crate::fixed::LIMIT;
use crate::regression::collision_count;
use crate::regression::collision_mass_basis;
use crate::regression::explosion_count;
use crate::regression::mass_basis;
use crate::regression::num_frag_collision;
use crate::regression::num_frag_explosion;
use crate::regression::COLLISION_LENGTH_EXPONENT;
use crate::regression::EXPLOSION_LENGTH_EXPONENT;
use crate::satellite::SatKind;
use crate::satellite::Satellite;
use crate::satellite::Vector3;
use vstd::prelude::*;

verus! {

/// The exponent -2.71 of the power law by which the fragments of a collision
/// are sized.
pub const COLLISION_EXPONENT: i64 = -2_710_000_000;

/// The exponent -2.6 of the power law by which the fragments of an explosion
/// are sized.
pub const EXPLOSION_EXPONENT: i64 = -2_600_000_000;

/// The square of the distance between two vectors.
pub open spec fn squared_distance(a: Vector3, b: Vector3) -> int {
    (a.x - b.x) * (a.x - b.x) + (a.y - b.y) * (a.y - b.y) + (a.z - b.z) * (a.z - b.z)
}

/// The distance between two vectors, rounded down.
pub open spec fn distance(a: Vector3, b: Vector3) -> int {
    choose|r: int| is_floor_sqrt(squared_distance(a, b), r)
}

/// A number has one integer square root.
pub proof fn lemma_floor_sqrt_unique(n: int, r1: int, r2: int)
    requires
        is_floor_sqrt(n, r1),
        is_floor_sqrt(n, r2),
    ensures
        r1 == r2,
{
    if r1 < r2 {
        assert((r1 + 1) * (r1 + 1) <= r2 * r2) by (nonlinear_arith)
            requires
                0 <= r1 + 1 <= r2,
        ;
    }
    if r2 < r1 {
        assert((r2 + 1) * (r2 + 1) <= r1 * r1) by (nonlinear_arith)
            requires
                0 <= r2 + 1 <= r1,
        ;
    }
}

/// The distance between two vectors of satellites in range.
fn distance_between(a: Vector3, b: Vector3) -> (r: i64)
    requires
        a.within(LIMIT as int),
        b.within(LIMIT as int),
    ensures
        r == distance(a, b),
        0 <= r,
{
    let dx: i128 = a.x as i128 - b.x as i128;
    let dy: i128 = a.y as i128 - b.y as i128;
    let dz: i128 = a.z as i128 - b.z as i128;
    assert(0 <= dx * dx <= 4_000_000_000_000_000_000_000_000_000_000_000_000) by (nonlinear_arith)
        requires
            -2_000_000_000_000_000_000 <= dx <= 2_000_000_000_000_000_000,
    ;
    assert(0 <= dy * dy <= 4_000_000_000_000_000_000_000_000_000_000_000_000) by (nonlinear_arith)
        requires
            -2_000_000_000_000_000_000 <= dy <= 2_000_000_000_000_000_000,
    ;
    assert(0 <= dz * dz <= 4_000_000_000_000_000_000_000_000_000_000_000_000) by (nonlinear_arith)
        requires
            -2_000_000_000_000_000_000 <= dz <= 2_000_000_000_000_000_000,
    ;
    let square: i128 = dx * dx + dy * dy + dz * dz;
    let root: u64 = floor_sqrt(square as u128);
    proof {
        let n = squared_distance(a, b);
        assert(n == square);
        if root >= 4_000_000_000_000_000_000 {
            assert(root * root >= 16_000_000_000_000_000_000_000_000_000_000_000_000)
                by (nonlinear_arith)
                requires
                    root >= 4_000_000_000_000_000_000,
            ;
        }
        lemma_floor_sqrt_unique(n, root as int, distance(a, b));
    }
    root as i64
}

/// A collision of two satellites. The larger one by characteristic length is
/// the target, the other the projectile.
#[derive(Clone, Copy, Debug, PartialEq, Eq, Structural)]
pub struct CollisionEvent {
    pub max_characteristic_length: i64,
    pub sat_kind: SatKind,
    pub input_mass: i64,
    pub target: Satellite,
    pub projectile: Satellite,
    /// The speed of one satellite relative to the other, rounded down.
    pub impact_speed: i64,
}

/// The explosion of one satellite.
#[derive(Clone, Copy, Debug, PartialEq, Eq, Structural)]
pub struct ExplosionEvent {
    pub max_characteristic_length: i64,
    pub sat_type: SatKind,
    pub input_mass: i64,
    pub satellite: Satellite,
}

/// A fragmentation event of either kind.
#[derive(Clone, Copy, Debug, PartialEq, Eq, Structural)]
pub enum FragmentationEvent {
    Collision(CollisionEvent),
    Explosion(ExplosionEvent),
}

/// The collision of two satellites in range, given in any order.
pub open spec fn collision_of(first: Satellite, second: Satellite) -> CollisionEvent {
    let swap = second.characteristic_length > first.characteristic_length;
    let target = if swap {
        second
    } else {
        first
    };
    let projectile = if swap {
        first
    } else {
        second
    };
    CollisionEvent {
        max_characteristic_length: target.characteristic_length,
        sat_kind: if first.sat_kind == SatKind::RB || second.sat_kind == SatKind::RB {
            SatKind::RB
        } else {
            SatKind::SOC
        },
        input_mass: (first.mass + second.mass) as i64,
        target,
        projectile,
        impact_speed: distance(target.velocity, projectile.velocity) as i64,
    }
}

/// The explosion of a satellite.
pub open spec fn explosion_of(satellite: Satellite) -> ExplosionEvent {
    ExplosionEvent {
        max_characteristic_length: satellite.characteristic_length,
        sat_type: satellite.sat_kind,
        input_mass: satellite.mass,
        satellite,
    }
}

impl CollisionEvent {
    /// Builds the collision of exactly two satellites, each with every field
    /// in range. Anything else is refused.
    pub fn new(satellites: &[Satellite]) -> (r: Result<CollisionEvent, ModelError>)
        ensures
            r == if satellites@.len() == 2 && satellites@[0].in_range()
                && satellites@[1].in_range() {
                Ok::<CollisionEvent, ModelError>(collision_of(satellites@[0], satellites@[1]))
            } else {
                Err::<CollisionEvent, ModelError>(ModelError::InvalidEvent)
            },
    {
        if satellites.len() != 2 {
            return Err(ModelError::InvalidEvent);
        }
        let first: Satellite = satellites[0];
        let second: Satellite = satellites[1];
        if !first.is_in_range() || !second.is_in_range() {
            return Err(ModelError::InvalidEvent);
        }
        let mut sat_kind: SatKind = SatKind::SOC;
        if first.sat_kind == SatKind::RB || second.sat_kind == SatKind::RB {
            sat_kind = SatKind::RB;
        }
        let input_mass: i64 = first.mass + second.mass;
        // The target is the larger satellite.
        let swap: bool = second.characteristic_length > first.characteristic_length;
        let target: Satellite = if swap {
            second
        } else {
            first
        };
        let projectile: Satellite = if swap {
            first
        } else {
            second
        };
        let impact_speed: i64 = distance_between(target.velocity, projectile.velocity);
        Ok(
            CollisionEvent {
                max_characteristic_length: target.characteristic_length,
                sat_kind,
                input_mass,
                target,
                projectile,
                impact_speed,
            },
        )
    }

    /// The mass that the fragment count is taken of, where it fits.
    pub open spec fn mass_basis_of(self) -> Option<i64> {
        narrowed(
            mass_basis(
                self.projectile.mass as int,
                self.target.mass as int,
                self.impact_speed as int,
            ),
        )
    }

    /// The mass that the fragment count is taken of: both masses together
    /// where the collision is catastrophic, the projectile's mass times the
    /// impact speed where it is not.
    pub fn mass_basis(&self) -> (r: Option<i64>)
        ensures
            r == self.mass_basis_of(),
    {
        collision_mass_basis(self.projectile.mass, self.target.mass, self.impact_speed)
    }

    /// Returns the fragment count before it is rounded down.
    ///
    /// * `mass_power` - the mass basis raised to 0.75
    /// * `length_power` - the minimum characteristic length raised to -1.71
    pub fn fragment_count(&self, mass_power: i64, length_power: i64) -> (r: Option<i64>)
        ensures
            r == narrowed(collision_count(mass_power as int, length_power as int)),
    {
        num_frag_collision(mass_power, length_power)
    }

    /// Where the collision occurred: at the target.
    pub fn location(&self) -> (r: Vector3)
        ensures
            r == self.target.position,
    {
        self.target.position
    }

    pub fn max_characteristic_length(&self) -> (r: i64)
        ensures
            r == self.max_characteristic_length,
    {
        self.max_characteristic_length
    }

    pub fn power_law_exponent(&self) -> (r: i64)
        ensures
            r == COLLISION_EXPONENT,
    {
        COLLISION_EXPONENT
    }

    pub fn kind(&self) -> (r: SatKind)
        ensures
            r == self.sat_kind,
    {
        self.sat_kind
    }

    /// The coefficients 0.9 and 2.9 of the mean speed of a fragment.
    pub fn delta_velocity_offset(&self) -> (r: (i64, i64))
        ensures
            r == (900_000_000i64, 2_900_000_000i64),
    {
        (900_000_000, 2_900_000_000)
    }
}

impl ExplosionEvent {
    /// Builds the explosion of a satellite.
    pub fn new(satellite: Satellite) -> (r: ExplosionEvent)
        ensures
            r == explosion_of(satellite),
    {
        ExplosionEvent {
            max_characteristic_length: satellite.characteristic_length,
            sat_type: satellite.sat_kind,
            input_mass: satellite.mass,
            satellite,
        }
    }

    /// Returns the fragment count before it is rounded down.
    ///
    /// * `length_power` - the minimum characteristic length raised to -1.6
    pub fn fragment_count(&self, length_power: i64) -> (r: Option<i64>)
        ensures
            r == narrowed(explosion_count(length_power as int)),
    {
        num_frag_explosion(length_power)
    }

    /// Where the explosion occurred: at the satellite.
    pub fn location(&self) -> (r: Vector3)
        ensures
            r == self.satellite.position,
    {
        self.satellite.position
    }

    pub fn max_characteristic_length(&self) -> (r: i64)
        ensures
            r == self.max_characteristic_length,
    {
        self.max_characteristic_length
    }

    pub fn power_law_exponent(&self) -> (r: i64)
        ensures
            r == EXPLOSION_EXPONENT,
    {
        EXPLOSION_EXPONENT
    }

    pub fn kind(&self) -> (r: SatKind)
        ensures
            r == self.sat_type,
    {
        self.sat_type
    }

    /// The coefficients 0.2 and 1.85 of the mean speed of a fragment.
    pub fn delta_velocity_offset(&self) -> (r: (i64, i64))
        ensures
            r == (200_000_000i64, 1_850_000_000i64),
    {
        (200_000_000, 1_850_000_000)
    }
}

impl FragmentationEvent {
    /// Where the event occurred.
    pub open spec fn location_of(self) -> Vector3 {
        match self {
            FragmentationEvent::Collision(c) => c.target.position,
            FragmentationEvent::Explosion(e) => e.satellite.position,
        }
    }

    /// The length of the largest fragment there can be.
    pub open spec fn max_length_of(self) -> i64 {
        match self {
            FragmentationEvent::Collision(c) => c.max_characteristic_length,
            FragmentationEvent::Explosion(e) => e.max_characteristic_length,
        }
    }

    /// The exponent of the power law by which fragments are sized.
    pub open spec fn exponent_of(self) -> i64 {
        match self {
            FragmentationEvent::Collision(_) => COLLISION_EXPONENT,
            FragmentationEvent::Explosion(_) => EXPLOSION_EXPONENT,
        }
    }

    /// The class by which area-to-mass ratios are drawn.
    pub open spec fn kind_of(self) -> SatKind {
        match self {
            FragmentationEvent::Collision(c) => c.sat_kind,
            FragmentationEvent::Explosion(e) => e.sat_type,
        }
    }

    /// The two coefficients of the mean speed of a fragment.
    pub open spec fn offset_of(self) -> (i64, i64) {
        match self {
            FragmentationEvent::Collision(_) => (900_000_000i64, 2_900_000_000i64),
            FragmentationEvent::Explosion(_) => (200_000_000i64, 1_850_000_000i64),
        }
    }

    /// The exponent of the minimum length in the fragment count.
    pub open spec fn count_exponent_of(self) -> i64 {
        match self {
            FragmentationEvent::Collision(_) => COLLISION_LENGTH_EXPONENT,
            FragmentationEvent::Explosion(_) => EXPLOSION_LENGTH_EXPONENT,
        }
    }

    /// The fragment count before it is rounded down, where it fits. An
    /// explosion's count takes no mass.
    pub open spec fn count_of(self, mass_power: int, length_power: int) -> Option<i64> {
        match self {
            FragmentationEvent::Collision(_) => narrowed(collision_count(mass_power, length_power)),
            FragmentationEvent::Explosion(_) => narrowed(explosion_count(length_power)),
        }
    }

    /// Returns the fragment count before it is rounded down.
    ///
    /// * `mass_power` - the mass basis of a collision raised to 0.75; an
    ///   explosion makes no use of it
    /// * `length_power` - the minimum characteristic length raised to the
    ///   exponent of the event's kind
    pub fn fragment_count(&self, mass_power: i64, length_power: i64) -> (r: Option<i64>)
        ensures
            r == self.count_of(mass_power as int, length_power as int),
    {
        match self {
            FragmentationEvent::Collision(c) => c.fragment_count(mass_power, length_power),
            FragmentationEvent::Explosion(e) => e.fragment_count(length_power),
        }
    }

    pub fn count_exponent(&self) -> (r: i64)
        ensures
            r == self.count_exponent_of(),
    {
        match self {
            FragmentationEvent::Collision(_) => COLLISION_LENGTH_EXPONENT,
            FragmentationEvent::Explosion(_) => EXPLOSION_LENGTH_EXPONENT,
        }
    }

    pub fn location(&self) -> (r: Vector3)
        ensures
            r == self.location_of(),
    {
        match self {
            FragmentationEvent::Collision(c) => c.location(),
            FragmentationEvent::Explosion(e) => e.location(),
        }
    }

    pub fn max_characteristic_length(&self) -> (r: i64)
        ensures
            r == self.max_length_of(),
    {
        match self {
            FragmentationEvent::Collision(c) => c.max_characteristic_length(),
            FragmentationEvent::Explosion(e) => e.max_characteristic_length(),
        }
    }

    pub fn power_law_exponent(&self) -> (r: i64)
        ensures
            r == self.exponent_of(),
    {
        match self {
            FragmentationEvent::Collision(c) => c.power_law_exponent(),
            FragmentationEvent::Explosion(e) => e.power_law_exponent(),
        }
    }

    pub fn kind(&self) -> (r: SatKind)
        ensures
            r == self.kind_of(),
    {
        match self {
            FragmentationEvent::Collision(c) => c.kind(),
            FragmentationEvent::Explosion(e) => e.kind(),
        }
    }

    pub fn delta_velocity_offset(&self) -> (r: (i64, i64))
        ensures
            r == self.offset_of(),
    {
        match self {
            FragmentationEvent::Collision(c) => c.delta_velocity_offset(),
            FragmentationEvent::Explosion(e) => e.delta_velocity_offset(),
        }
    }
}

/// The order in which two satellites of different lengths are given does
/// not matter to their collision: the longer one is the target either way.
pub proof fn lemma_collision_order(first: Satellite, second: Satellite)
    requires
        first.in_range(),
        second.in_range(),
        first.characteristic_length != second.characteristic_length,
    ensures
        collision_of(first, second) == collision_of(second, first),
        collision_of(first, second).target.characteristic_length
            >= collision_of(first, second).projectile.characteristic_length,
{
}

/// The target of a collision is never the shorter satellite, and the mass
/// basis of its fragment count goes by the catastrophic test of projectile
/// against target.
pub proof fn lemma_collision_roles(first: Satellite, second: Satellite)
    ensures
        ({
            let c = collision_of(first, second);
            &&& c.target.characteristic_length >= c.projectile.characteristic_length
            &&& c.max_characteristic_length == c.target.characteristic_length
            &&& (c.target == first && c.projectile == second) || (c.target == second
                && c.projectile == first)
            &&& c.mass_basis_of() == narrowed(
                if crate::regression::catastrophic(
                    c.projectile.mass as int,
                    c.target.mass as int,
                    c.impact_speed as int,
                ) {
                    c.projectile.mass + c.target.mass
                } else {
                    crate::fixed::product(c.projectile.mass as int, c.impact_speed as int)
                },
            )
        }),
{
}

} // verus!
