use nsbm::error::ModelError;
use nsbm::event::CollisionEvent;
use nsbm::event::ExplosionEvent;
use nsbm::event::FragmentationEvent;
use nsbm::fixed::LIMIT;
use nsbm::fixed::UNIT;
use nsbm::satellite::SatKind;
use nsbm::satellite::Satellite;
use nsbm::satellite::Vector3;

fn vector(x: i64, y: i64, z: i64) -> Vector3 {
    Vector3 { x, y, z }
}

fn satellite(mass: i64, length: i64, kind: SatKind, velocity: Vector3) -> Satellite {
    Satellite {
        position: vector(mass, length, 7),
        velocity,
        mass,
        characteristic_length: length,
        sat_kind: kind,
    }
}

#[test]
fn collision_takes_the_longer_satellite_as_target() {
    let small = satellite(UNIT, 100_000_000, SatKind::SC, vector(0, 0, 0));
    let large = satellite(1000 * UNIT, 5 * UNIT, SatKind::SOC, vector(3 * UNIT, 4 * UNIT, 0));
    let one = CollisionEvent::new(&[small, large]).unwrap();
    let other = CollisionEvent::new(&[large, small]).unwrap();
    assert_eq!(one, other);
    assert_eq!(one.target, large);
    assert_eq!(one.projectile, small);
    assert_eq!(one.max_characteristic_length, 5 * UNIT);
    assert_eq!(one.input_mass, 1001 * UNIT);
    assert_eq!(one.sat_kind, SatKind::SOC);
    assert_eq!(one.impact_speed, 5 * UNIT);
    assert_eq!(one.location(), large.position);
}

#[test]
fn collision_of_equal_lengths_keeps_the_first_as_target() {
    let a = satellite(UNIT, UNIT, SatKind::SC, vector(0, 0, 0));
    let b = satellite(2 * UNIT, UNIT, SatKind::SC, vector(0, 0, UNIT));
    assert_eq!(CollisionEvent::new(&[a, b]).unwrap().target, a);
    assert_eq!(CollisionEvent::new(&[b, a]).unwrap().target, b);
}

#[test]
fn collision_kind_is_rocket_body_if_either_is() {
    let v = vector(0, 0, 0);
    let kinds = [SatKind::RB, SatKind::SOC, SatKind::SC];
    for first in kinds {
        for second in kinds {
            let event = CollisionEvent::new(&[
                satellite(UNIT, UNIT, first, v),
                satellite(UNIT, 2 * UNIT, second, v),
            ])
            .unwrap();
            let expected = if first == SatKind::RB || second == SatKind::RB {
                SatKind::RB
            } else {
                SatKind::SOC
            };
            assert_eq!(event.kind(), expected);
        }
    }
}

#[test]
fn collision_impact_speed_is_rounded_down() {
    let a = satellite(UNIT, UNIT, SatKind::SC, vector(3 * UNIT, 0, 0));
    let b = satellite(UNIT, 2 * UNIT, SatKind::SC, vector(0, 3 * UNIT, 0));
    assert_eq!(CollisionEvent::new(&[a, b]).unwrap().impact_speed, 4_242_640_687);
    let c = satellite(UNIT, UNIT, SatKind::SC, vector(LIMIT, LIMIT, LIMIT));
    let d = satellite(UNIT, 2 * UNIT, SatKind::SC, vector(-LIMIT, -LIMIT, -LIMIT));
    assert_eq!(CollisionEvent::new(&[c, d]).unwrap().impact_speed, 3_464_101_615_137_754_587);
    assert_eq!(CollisionEvent::new(&[c, c]).unwrap().impact_speed, 0);
}

#[test]
fn collision_needs_exactly_two_satellites_in_range() {
    let good = satellite(UNIT, UNIT, SatKind::SC, vector(0, 0, 0));
    let heavy = Satellite { mass: LIMIT + 1, ..good };
    assert_eq!(CollisionEvent::new(&[]), Err(ModelError::InvalidEvent));
    assert_eq!(CollisionEvent::new(&[good]), Err(ModelError::InvalidEvent));
    assert_eq!(CollisionEvent::new(&[good, good, good]), Err(ModelError::InvalidEvent));
    assert_eq!(CollisionEvent::new(&[good, heavy]), Err(ModelError::InvalidEvent));
    assert_eq!(CollisionEvent::new(&[heavy, good]), Err(ModelError::InvalidEvent));
    assert!(CollisionEvent::new(&[good, good]).is_ok());
}

#[test]
fn collision_mass_basis_by_the_catastrophic_test() {
    // 1 kg at 10 km/s on 1000 kg: 50 J/g, catastrophic.
    let target = satellite(1000 * UNIT, 5 * UNIT, SatKind::SC, vector(0, 0, 0));
    let fast = satellite(UNIT, UNIT, SatKind::SC, vector(10 * UNIT, 0, 0));
    let slow = satellite(UNIT, UNIT, SatKind::SC, vector(0, 8 * UNIT, 0));
    assert_eq!(CollisionEvent::new(&[fast, target]).unwrap().mass_basis(), Some(1001 * UNIT));
    assert_eq!(CollisionEvent::new(&[target, fast]).unwrap().mass_basis(), Some(1001 * UNIT));
    // 1 kg at 8 km/s on 1000 kg: 32 J/g, not catastrophic.
    assert_eq!(CollisionEvent::new(&[slow, target]).unwrap().mass_basis(), Some(8 * UNIT));
    assert_eq!(CollisionEvent::new(&[target, slow]).unwrap().mass_basis(), Some(8 * UNIT));
}

#[test]
fn collision_scalars() {
    let a = satellite(UNIT, UNIT, SatKind::RB, vector(0, 0, 0));
    let event = CollisionEvent::new(&[a, a]).unwrap();
    assert_eq!(event.power_law_exponent(), -2_710_000_000);
    assert_eq!(event.delta_velocity_offset(), (900_000_000, 2_900_000_000));
    assert_eq!(event.max_characteristic_length(), UNIT);
    assert_eq!(
        event.fragment_count(177_827_941_004, 2_630_267_991_895),
        Some(46_773_514_127_689)
    );
    let any = FragmentationEvent::Collision(event);
    assert_eq!(any.power_law_exponent(), -2_710_000_000);
    assert_eq!(any.count_exponent(), -1_710_000_000);
    assert_eq!(any.delta_velocity_offset(), (900_000_000, 2_900_000_000));
    assert_eq!(any.kind(), SatKind::RB);
    assert_eq!(any.location(), a.position);
    assert_eq!(any.max_characteristic_length(), UNIT);
    assert_eq!(
        any.fragment_count(177_827_941_004, 2_630_267_991_895),
        Some(46_773_514_127_689)
    );
}

#[test]
fn explosion_copies_its_satellite() {
    let sat = satellite(3 * UNIT, 2 * UNIT, SatKind::SC, vector(1, 2, 3));
    let event = ExplosionEvent::new(sat);
    assert_eq!(event.satellite, sat);
    assert_eq!(event.input_mass, 3 * UNIT);
    assert_eq!(event.sat_type, SatKind::SC);
    assert_eq!(event.max_characteristic_length, 2 * UNIT);
    assert_eq!(event.kind(), SatKind::SC);
    assert_eq!(event.location(), sat.position);
    assert_eq!(event.max_characteristic_length(), 2 * UNIT);
}

#[test]
fn explosion_scalars() {
    let sat = satellite(UNIT, UNIT, SatKind::RB, vector(0, 0, 0));
    let event = ExplosionEvent::new(sat);
    assert_eq!(event.power_law_exponent(), -2_600_000_000);
    assert_eq!(event.delta_velocity_offset(), (200_000_000, 1_850_000_000));
    assert_eq!(event.fragment_count(1_584_893_192_461), Some(9_509_359_154_766));
    let any = FragmentationEvent::Explosion(event);
    assert_eq!(any.power_law_exponent(), -2_600_000_000);
    assert_eq!(any.count_exponent(), -1_600_000_000);
    assert_eq!(any.delta_velocity_offset(), (200_000_000, 1_850_000_000));
    assert_eq!(any.kind(), SatKind::RB);
    assert_eq!(any.location(), sat.position);
    assert_eq!(any.max_characteristic_length(), UNIT);
    // An explosion's count takes no mass.
    assert_eq!(any.fragment_count(0, 1_584_893_192_461), Some(9_509_359_154_766));
    assert_eq!(any.fragment_count(i64::MAX, 1_584_893_192_461), Some(9_509_359_154_766));
}
