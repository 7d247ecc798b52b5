use nsbm::error::Cause;
use nsbm::error::ModelError;
use nsbm::error::Stage;
use nsbm::fixed::UNIT;
use nsbm::regression::area;
use nsbm::regression::area_from_power;
use nsbm::regression::collision_mass_basis;
use nsbm::regression::is_catastrophic;
use nsbm::regression::num_frag_collision;
use nsbm::regression::num_frag_explosion;
use nsbm::regression::fragment_total;
use nsbm::regression::mass;
use nsbm::regression::power_law;
use nsbm::regression::power_law_exponents;
use nsbm::regression::AreaPlan;
use nsbm::regression::AREA_BOUND;
use nsbm::regression::AREA_REACH;

#[test]
fn area_below_the_bound_is_the_square_law() {
    assert_eq!(area(1_000_000), Ok(AreaPlan::Known(540_424_000_000_000_000)));
    assert_eq!(area(1_669_999), Ok(AreaPlan::Known(1_507_186_688_584_380_424)));
    assert_eq!(area(123_456), Ok(AreaPlan::Known(8_236_809_672_228_864)));
    assert_eq!(area(1), Ok(AreaPlan::Known(540_424)));
}

#[test]
fn area_of_a_millimetre() {
    // 0.540424 * 0.001^2 = 5.40424e-7 m^2, in units of 1e-24 m^2.
    match area(1_000_000) {
        Ok(AreaPlan::Known(a)) => {
            assert_eq!(a, 540_424_000_000_000_000);
            assert!((a as f64 / 1e24 - 5.40424e-7).abs() <= 1e-12);
        }
        other => panic!("no area: {:?}", other),
    }
}

#[test]
fn area_is_above_zero_from_a_millionth_of_a_metre() {
    let mut length = 1_000;
    while length < AREA_BOUND {
        match area(length) {
            Ok(AreaPlan::Known(a)) => assert!(a > 0),
            other => panic!("no area at {}: {:?}", length, other),
        }
        length += 1_009;
    }
    assert_eq!(area(1_000), Ok(AreaPlan::Known(540_424_000_000)));
}

#[test]
fn area_at_the_bound_and_above_needs_the_power() {
    assert_eq!(area(AREA_BOUND), Ok(AreaPlan::NeedsPower));
    assert_eq!(area(AREA_BOUND - 1), Ok(AreaPlan::Known(1_507_186_688_584_380_424)));
    assert_eq!(area(100_000_000), Ok(AreaPlan::NeedsPower));
    assert_eq!(area(i64::MAX), Ok(AreaPlan::NeedsPower));
}

#[test]
fn area_of_no_length_and_of_lengths_below_zero_is_the_square_law() {
    assert_eq!(area(0), Ok(AreaPlan::Known(0)));
    assert_eq!(area(-1), Ok(AreaPlan::Known(540_424)));
    assert_eq!(area(-1_000_000), Ok(AreaPlan::Known(540_424_000_000_000_000)));
    assert_eq!(area(-2 * UNIT), Ok(AreaPlan::Known(2_161_696_000_000_000_000_000_000)));
}

#[test]
fn area_far_below_zero_does_not_fit() {
    let refused = Err(ModelError::Failed { stage: Stage::Area, cause: Cause::OutOfRange });
    assert_eq!(
        area(-AREA_REACH),
        Ok(AreaPlan::Known(170_141_183_460_469_214_906_638_121_626_963_776_904))
    );
    assert_eq!(area(-AREA_REACH - 1), refused);
    assert_eq!(area(i64::MIN), refused);
}

#[test]
fn area_from_power_applies_the_factor() {
    // 0.1 ^ 2.0047077 = 0.009892187, in units of 1e-18
    assert_eq!(
        area_from_power(9_892_187_000_000_000),
        Some(5_509_404_088_715_000_000_000)
    );
    assert_eq!(area_from_power(1_000_000_000_000_000_000), Some(556_945_000_000_000_000_000_000));
    assert_eq!(area_from_power(1), Some(556_945));
    assert_eq!(area_from_power(0), Some(0));
    assert_eq!(area_from_power(-1), Some(-556_945));
}

#[test]
fn area_from_power_that_does_not_fit() {
    assert_eq!(area_from_power(i128::MAX), None);
    assert_eq!(area_from_power(i128::MIN), None);
    assert_eq!(area_from_power(i128::MAX / 556_945), Some(i128::MAX / 556_945 * 556_945));
    assert_eq!(area_from_power(i128::MAX / 556_945 + 1), None);
}

#[test]
fn area_grows_with_the_length_below_the_bound() {
    let mut last = 0;
    let mut length = 1;
    while length < AREA_BOUND {
        match area(length) {
            Ok(AreaPlan::Known(a)) => {
                assert!(a > last);
                last = a;
            }
            other => panic!("no area at {}: {:?}", length, other),
        }
        length += 1;
        if length > 5_000 {
            length += 997;
        }
    }
}

#[test]
fn catastrophic_above_forty_joules_per_gram() {
    // 1 kg on 1000 kg: 500 * v^2 / 1000 J/g.
    assert!(is_catastrophic(UNIT, 1000 * UNIT, 10 * UNIT));
    assert!(!is_catastrophic(UNIT, 1000 * UNIT, 8 * UNIT));
    // The threshold is crossed between these two speeds.
    assert!(!is_catastrophic(UNIT, 1000 * UNIT, 8_944_271_909));
    assert!(is_catastrophic(UNIT, 1000 * UNIT, 8_944_271_910));
}

#[test]
fn catastrophic_at_exactly_forty_is_not() {
    // 2 kg on 2500 kg at 10 km/s: 500 * 2 * 100 / 2500 = 40 J/g.
    assert!(!is_catastrophic(2 * UNIT, 2500 * UNIT, 10 * UNIT));
    assert!(is_catastrophic(2 * UNIT, 2500 * UNIT, 10 * UNIT + 1));
}

#[test]
fn catastrophic_with_a_target_of_no_mass() {
    assert!(is_catastrophic(UNIT, 0, UNIT));
    assert!(!is_catastrophic(UNIT, 0, 0));
    assert!(!is_catastrophic(0, 0, UNIT));
    assert!(!is_catastrophic(-UNIT, 0, UNIT));
}

#[test]
fn catastrophic_with_masses_below_zero() {
    assert!(!is_catastrophic(-UNIT, 1000 * UNIT, 10 * UNIT));
    assert!(!is_catastrophic(UNIT, -1000 * UNIT, 10 * UNIT));
    // -1 kg on -1000 kg at 8 km/s: the energy per gram is 32 J/g.
    assert!(!is_catastrophic(-UNIT, -1000 * UNIT, 8 * UNIT));
    assert!(is_catastrophic(-UNIT, -1000 * UNIT, 10 * UNIT));
}

#[test]
fn catastrophic_at_the_ends_of_the_range() {
    assert!(is_catastrophic(i64::MAX, i64::MAX, i64::MAX));
    assert!(is_catastrophic(i64::MAX, i64::MAX, i64::MIN));
    assert!(!is_catastrophic(i64::MIN, i64::MAX, i64::MAX));
    assert!(is_catastrophic(i64::MIN, i64::MIN, i64::MAX));
    assert!(!is_catastrophic(1, i64::MAX, 1));
}

#[test]
fn catastrophic_stays_so_as_the_speed_rises() {
    let mut seen = false;
    let mut speed = 0;
    while speed <= 20 * UNIT {
        let now = is_catastrophic(3 * UNIT, 700 * UNIT, speed);
        assert!(now || !seen);
        seen = now;
        speed += 250_000_000;
    }
    assert!(seen);
}

#[test]
fn mass_basis_is_the_sum_when_catastrophic() {
    assert_eq!(collision_mass_basis(UNIT, 1000 * UNIT, 10 * UNIT), Some(1001 * UNIT));
    assert_eq!(collision_mass_basis(i64::MAX, i64::MAX, i64::MAX), None);
}

#[test]
fn mass_basis_is_mass_times_speed_when_not() {
    assert_eq!(collision_mass_basis(UNIT, 1000 * UNIT, 8 * UNIT), Some(8 * UNIT));
    assert_eq!(collision_mass_basis(2_500_000_000, 1000 * UNIT, 1_500_000_000), Some(3_750_000_000));
    assert_eq!(collision_mass_basis(UNIT, 0, 0), Some(0));
}

#[test]
fn mass_basis_follows_the_classification() {
    let cases = [
        (UNIT, 1000 * UNIT, 10 * UNIT),
        (UNIT, 1000 * UNIT, 8 * UNIT),
        (1000 * UNIT, UNIT, 8 * UNIT),
        (1000 * UNIT, UNIT, 1),
        (5 * UNIT, 5 * UNIT, 300_000_000),
    ];
    for (m_proj, m_targ, v) in cases {
        let expected = if is_catastrophic(m_proj, m_targ, v) {
            m_proj + m_targ
        } else {
            ((m_proj as i128 * v as i128).div_euclid(UNIT as i128)) as i64
        };
        assert_eq!(collision_mass_basis(m_proj, m_targ, v), Some(expected));
    }
}

#[test]
fn collision_count_from_its_powers() {
    // 1000 ^ 0.75 = 177.827941004, 0.01 ^ -1.71 = 2630.267991895
    assert_eq!(num_frag_collision(177_827_941_004, 2_630_267_991_895), Some(46_773_514_127_689));
    assert_eq!(num_frag_collision(0, 2_630_267_991_895), Some(0));
    assert_eq!(num_frag_collision(i64::MAX, i64::MAX), None);
}

#[test]
fn explosion_count_from_its_power() {
    // 0.01 ^ -1.6 = 1584.893192461
    assert_eq!(num_frag_explosion(1_584_893_192_461), Some(9_509_359_154_766));
    assert_eq!(num_frag_explosion(UNIT), Some(6 * UNIT));
    assert_eq!(num_frag_explosion(i64::MAX), None);
}

#[test]
fn fragments_are_counted_whole() {
    assert_eq!(fragment_total(Some(9_509_359_154_766)), 9509);
    assert_eq!(fragment_total(Some(46_773_514_127_689)), 46_773);
    assert_eq!(fragment_total(Some(UNIT - 1)), 0);
    assert_eq!(fragment_total(Some(UNIT)), 1);
    assert_eq!(fragment_total(Some(0)), 0);
}

#[test]
fn a_count_below_zero_or_missing_is_no_fragments() {
    assert_eq!(fragment_total(Some(-1)), 0);
    assert_eq!(fragment_total(Some(-5 * UNIT)), 0);
    assert_eq!(fragment_total(Some(i64::MIN)), 0);
    assert_eq!(fragment_total(None), 0);
}

#[test]
fn power_law_exponents_of_the_two_event_kinds() {
    assert_eq!(power_law_exponents(-2_710_000_000), Ok((-1_710_000_000, -584_795_322)));
    assert_eq!(power_law_exponents(-2_600_000_000), Ok((-1_600_000_000, -625_000_000)));
    assert_eq!(power_law_exponents(0), Ok((UNIT, UNIT)));
    assert_eq!(power_law_exponents(1), Ok((1_000_000_001, 999_999_999)));
}

#[test]
fn power_law_exponent_next_to_minus_one() {
    assert_eq!(
        power_law_exponents(-1_000_000_001),
        Ok((-1, -1_000_000_000_000_000_000))
    );
    assert_eq!(power_law_exponents(-999_999_999), Ok((1, 1_000_000_000_000_000_000)));
}

#[test]
fn power_law_exponent_minus_one_is_degenerate() {
    assert_eq!(
        power_law_exponents(-UNIT),
        Err(ModelError::Failed { stage: Stage::Length, cause: Cause::DegenerateExponent })
    );
}

#[test]
fn power_law_exponent_beyond_range() {
    let refused = Err(ModelError::Failed { stage: Stage::Length, cause: Cause::OutOfRange });
    assert_eq!(power_law_exponents(i64::MAX), refused);
    assert_eq!(power_law_exponents(i64::MAX - UNIT + 1), refused);
    assert!(power_law_exponents(i64::MAX - UNIT).is_ok());
}

#[test]
fn power_law_base_at_the_ends_and_between() {
    let lower = 2_630_267_991_895;
    let upper = 51_286_138_399;
    assert_eq!(power_law(lower, upper, UNIT), Some(upper));
    assert_eq!(power_law(lower, upper, 0), Some(2_681_554_130_294));
    assert_eq!(power_law(lower, upper, 500_000_000), Some(1_366_420_134_347));
    assert_eq!(power_law(lower, upper, 123_456_789), Some(2_356_829_689_806));
}

#[test]
fn power_law_base_lies_between_the_upper_power_and_the_sum() {
    let lower = 2_630_267_991_895;
    let upper = 51_286_138_399;
    let mut y = 0;
    while y <= UNIT {
        let base = power_law(lower, upper, y).unwrap();
        assert!(upper <= base && base <= upper + lower);
        y += 7_812_500;
    }
}

#[test]
fn power_law_base_that_does_not_fit() {
    assert_eq!(power_law(i64::MAX, i64::MAX, 0), None);
    assert_eq!(power_law(i64::MIN, i64::MAX, UNIT), Some(i64::MAX));
}

#[test]
fn mass_is_area_over_ratio() {
    assert_eq!(mass(5_500_000, 300_000_000), Some(18_333_333));
    assert_eq!(
        mass(1_372_813_730_500_000_000_000, 158_489_319),
        Some(8_661_869_072_072_926_251_894)
    );
    assert_eq!(mass(1, UNIT), Some(1));
    assert_eq!(mass(1, 2 * UNIT), Some(0));
    assert_eq!(mass(UNIT as i128, -2 * UNIT), Some(-500_000_000));
    assert_eq!(mass(10, -3), Some(-3_333_333_334));
    assert_eq!(mass(-10, -3), Some(3_333_333_333));
    assert_eq!(mass(-10, 3), Some(-3_333_333_334));
    assert_eq!(mass(-1, 2 * UNIT), Some(-1));
}

#[test]
fn mass_of_a_small_area_is_above_zero() {
    // An area of 1e-9 m^2 over a ratio of 2 m^2/kg: 5e-10 kg.
    assert_eq!(mass(1_000_000_000_000_000, 2 * UNIT), Some(500_000_000_000_000));
    // The area of a fragment a millionth of a metre long, over any ratio.
    assert_eq!(mass(540_424_000_000, 2 * UNIT), Some(270_212_000_000));
    assert_eq!(mass(540_424_000_000, i64::MAX), Some(58));
    assert_eq!(mass(540_424_000_000, 1), Some(540_424_000_000_000_000_000));
}

#[test]
fn mass_at_the_ends_of_the_range() {
    assert_eq!(mass(i128::MAX, UNIT), Some(i128::MAX));
    assert_eq!(mass(i128::MAX, UNIT - 1), None);
    assert_eq!(mass(i128::MAX, i64::MAX), Some(18_446_744_073_709_551_618_000_000_000));
    assert_eq!(mass(i128::MAX, i64::MIN), Some(-18_446_744_073_709_551_616_000_000_000));
    assert_eq!(mass(i128::MIN, 2 * UNIT), Some(i128::MIN / 2));
    assert_eq!(mass(i128::MIN, UNIT), Some(i128::MIN));
    assert_eq!(mass(i128::MIN, -UNIT), None);
    assert_eq!(mass(i128::MIN, i64::MAX), Some(-18_446_744_073_709_551_618_000_000_001));
    assert_eq!(mass(i128::MIN, i64::MIN), Some(18_446_744_073_709_551_616_000_000_000));
}

#[test]
fn mass_over_no_ratio_or_beyond_range() {
    assert_eq!(mass(UNIT as i128, 0), None);
    assert_eq!(mass(0, 0), None);
    assert_eq!(mass(i128::MAX, 1), None);
    assert_eq!(mass(i128::MIN, -1), None);
}

#[test]
fn area_is_continuous_at_the_bound() {
    // At the bound by the square law, had it reached so far.
    let square = 540_424i128 * 1_670_000 * 1_670_000;
    // At the bound by the power law, the power computed in floating point.
    let power = (0.00167f64.powf(2.0047077) * 1e18).round() as i128;
    assert!(2_706_150_000_000 <= power && power <= 2_706_250_000_000);
    let at = area_from_power(power).unwrap();
    assert!((at - square).abs() * 10_000 < square);
    // Just below the bound, by the square law.
    assert_eq!(area(AREA_BOUND - 1), Ok(AreaPlan::Known(1_507_186_688_584_380_424)));
    assert!((at - 1_507_186_688_584_380_424).abs() * 10_000 < square);
}

#[test]
fn area_grows_with_the_power() {
    let mut last = i128::MIN;
    let mut power: i128 = -5_000;
    while power <= 5_000 {
        let a = area_from_power(power).unwrap();
        assert!(a > last);
        assert_eq!(a > 0, power > 0);
        last = a;
        power += 1;
    }
}
