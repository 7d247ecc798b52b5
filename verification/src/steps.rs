//! The steps of a run of the breakup model.
//!
//! A run is a sequence of steps. At each step the run waits for the outcome
//! of one operation; the outcome takes it to the next step, to a finished
//! table or to a failure. What a run asks at each step and where each
//! answer takes it is written down here, as functions on the state of a
//! run.

use crate::am_ratio::Regime;
use crate::am_ratio::am_ratio_of;
use crate::am_ratio::mean_1_of;
use crate::am_ratio::mean_2_of;
use crate::am_ratio::mean_soc_of;
use crate::am_ratio::mixture_of;
use crate::am_ratio::regime_of;
use crate::am_ratio::sigma_1_of;
use crate::am_ratio::sigma_2_of;
use crate::am_ratio::sigma_soc_of;
use crate::error::Cause;
use crate::error::ModelError;
use crate::error::Stage;
use crate::event::FragmentationEvent;
use crate::fixed::UNIT;
use crate::fixed::fits;
use crate::fixed::narrowed;
use crate::fixed::widened;
use crate::host::Reply;
use crate::host::Request;
use crate::regression::AREA_LARGE_EXPONENT;
use crate::regression::AreaPlan;
use crate::regression::COLLISION_MASS_EXPONENT;
use crate::regression::area_large;
use crate::regression::area_plan;
use crate::regression::inverse_exponent;
use crate::regression::mass_of;
use crate::regression::power_law_base;
use crate::regression::shifted_exponent;
use crate::regression::whole_fragments;
use crate::satellite::Vector3;
use crate::velocity::SPEED_DEVIATION;
use crate::velocity::is_direction;
use crate::velocity::speed_mean_of;
use crate::velocity::velocity_fits;
use crate::velocity::velocity_of;
use vstd::prelude::*;

verus! {


/// The minimum trackable characteristic length: 0.01 m.
pub const MIN_CHARACTERISTIC_LENGTH: i64 = 10_000_000;

/// The number ten, of which the area-to-mass ratio is a power.
pub const TEN: i64 = 10_000_000_000;

/// One row of the fragment table.
#[derive(Clone, Copy, Debug, PartialEq, Eq, Structural)]
pub struct Fragment {
    /// Where the fragment starts: at the event.
    pub origin: Vector3,
    /// Characteristic length [m].
    pub characteristic_length: i64,
    /// Area-to-mass ratio [m^2/kg].
    pub am_ratio: i64,
    /// Area, in units of `1e-24` m^2.
    pub area: i128,
    /// Mass, in units of `1e-24` kg.
    pub mass: i128,
    /// Velocity relative to the event [km/s].
    pub velocity: Vector3,
}

/// Where a run stands: what it waits for, or how it ended.
#[derive(Clone, Copy, Debug, PartialEq, Eq, Structural)]
pub enum Phase {
    /// Waits for the mass basis of a collision raised to 0.75.
    MassPower,
    /// Waits for the minimum length raised to the exponent of the count.
    CountPower,
    /// Waits for the minimum length raised to `n + 1`.
    LowerPower,
    /// Waits for the maximum length raised to `n + 1`.
    UpperPower,
    /// Waits for the uniform draw of the next fragment's length.
    Uniform,
    /// Waits for the length: the power law's base raised to `1 / (n + 1)`.
    Length,
    /// Waits for the length raised to the exponent of the area law.
    AreaPower,
    /// Waits for the logarithm of the length.
    Lambda,
    /// Waits for the normal draw of a small object.
    SmallDraw,
    /// Waits for the first normal draw of a large object.
    FirstDraw,
    /// Waits for the second normal draw of a large object.
    SecondDraw,
    /// Waits for ten raised to the draw of a small object.
    SmallValue,
    /// Waits for ten raised to the mixture of the draws of a large object.
    LargeValue,
    /// Waits for the logarithm of the area-to-mass ratio.
    Chi,
    /// Waits for the normal draw of the speed.
    Speed,
    /// Waits for the direction of the velocity.
    Direction,
    /// The table is complete.
    Finished,
    /// The run failed, and there is no table.
    Failed(ModelError),
}

/// The fragment in the making: what has been computed of it so far.
#[derive(Clone, Copy, Debug, PartialEq, Eq, Structural)]
pub struct Draft {
    pub base: i64,
    pub length: i64,
    pub area: i128,
    pub lambda: i64,
    pub small_draw: i64,
    pub first_draw: i64,
    pub mixture: i64,
    pub small_value: i64,
    pub am_ratio: i64,
    pub mass: i128,
    pub speed_mean: i64,
    pub speed: i64,
}

/// The state of a run, but for the rows made so far.
#[derive(Clone, Copy, Debug, PartialEq, Eq, Structural)]
pub struct Core {
    pub event: FragmentationEvent,
    /// The exponent of the power law plus one.
    pub shifted: i64,
    /// The inverse of `shifted`.
    pub inverse: i64,
    pub phase: Phase,
    pub mass_power: i64,
    /// The number of rows of the table.
    pub total: u64,
    /// The number of rows still to be made.
    pub remaining: u64,
    pub lower_power: i64,
    pub upper_power: i64,
    pub draft: Draft,
}

/// The state of a run.
pub struct State {
    pub core: Core,
    pub rows: Seq<Fragment>,
}

/// A draft with nothing in it.
pub open spec fn empty_draft() -> Draft {
    Draft {
        base: 0,
        length: 0,
        area: 0,
        lambda: 0,
        small_draw: 0,
        first_draw: 0,
        mixture: 0,
        small_value: 0,
        am_ratio: 0,
        mass: 0,
        speed_mean: 0,
        speed: 0,
    }
}

/// The run, failed at a stage.
pub open spec fn failed(core: Core, stage: Stage, cause: Cause) -> Core {
    Core { phase: Phase::Failed(ModelError::Failed { stage, cause }), ..core }
}

/// The state in which a run of an event starts. An event whose exponent has
/// no inverse fails at once; a collision without a mass basis has no
/// fragments.
pub open spec fn initial(event: FragmentationEvent) -> Core {
    let blank = Core {
        event,
        shifted: 0,
        inverse: 0,
        phase: Phase::Finished,
        mass_power: 0,
        total: 0,
        remaining: 0,
        lower_power: 0,
        upper_power: 0,
        draft: empty_draft(),
    };
    let shifted = shifted_exponent(event.exponent_of() as int);
    if shifted == 0 {
        failed(blank, Stage::Length, Cause::DegenerateExponent)
    } else if !fits(shifted) {
        failed(blank, Stage::Length, Cause::OutOfRange)
    } else {
        let ready = Core {
            shifted: shifted as i64,
            inverse: inverse_exponent(event.exponent_of() as int) as i64,
            ..blank
        };
        match event {
            FragmentationEvent::Collision(c) => match c.mass_basis_of() {
                Some(_) => Core { phase: Phase::MassPower, ..ready },
                None => ready,
            },
            FragmentationEvent::Explosion(_) => Core { phase: Phase::CountPower, ..ready },
        }
    }
}

/// What a run asks of its host, if it has not ended.
pub open spec fn pending(core: Core) -> Option<Request> {
    let kind = core.event.kind_of();
    let lambda = core.draft.lambda as int;
    match core.phase {
        Phase::MassPower => match core.event {
            FragmentationEvent::Collision(c) => match c.mass_basis_of() {
                Some(basis) => Some(
                    Request::Power { base: basis, exponent: COLLISION_MASS_EXPONENT },
                ),
                None => None,
            },
            FragmentationEvent::Explosion(_) => None,
        },
        Phase::CountPower => Some(
            Request::Power {
                base: MIN_CHARACTERISTIC_LENGTH,
                exponent: core.event.count_exponent_of(),
            },
        ),
        Phase::LowerPower => Some(
            Request::Power { base: MIN_CHARACTERISTIC_LENGTH, exponent: core.shifted },
        ),
        Phase::UpperPower => Some(
            Request::Power { base: core.event.max_length_of(), exponent: core.shifted },
        ),
        Phase::Uniform => Some(Request::Uniform),
        Phase::Length => Some(Request::Power { base: core.draft.base, exponent: core.inverse }),
        Phase::AreaPower => Some(
            Request::FinePower { base: core.draft.length, exponent: AREA_LARGE_EXPONENT },
        ),
        Phase::Lambda => Some(Request::Log10 { value: core.draft.length }),
        Phase::SmallDraw => Some(
            Request::Normal {
                mean: mean_soc_of(lambda) as i64,
                std_dev: sigma_soc_of(lambda) as i64,
            },
        ),
        Phase::FirstDraw => Some(
            Request::Normal {
                mean: mean_1_of(kind, lambda) as i64,
                std_dev: sigma_1_of(kind, lambda) as i64,
            },
        ),
        Phase::SecondDraw => Some(
            Request::Normal {
                mean: mean_2_of(kind, lambda) as i64,
                std_dev: sigma_2_of(lambda) as i64,
            },
        ),
        Phase::SmallValue => Some(Request::Power { base: TEN, exponent: core.draft.small_draw }),
        Phase::LargeValue => Some(Request::Power { base: TEN, exponent: core.draft.mixture }),
        Phase::Chi => Some(Request::Log10 { value: core.draft.am_ratio }),
        Phase::Speed => Some(
            Request::Normal { mean: core.draft.speed_mean, std_dev: SPEED_DEVIATION },
        ),
        Phase::Direction => Some(Request::Direction),
        Phase::Finished => None,
        Phase::Failed(_) => None,
    }
}

/// The run, ended with a table of no rows.
pub open spec fn without_fragments(core: Core) -> Core {
    Core { phase: Phase::Finished, total: 0, remaining: 0, ..core }
}

/// The run once the fragment count is known. A count that is missing or
/// negative stands for no fragments.
pub open spec fn counted(core: Core, count: Option<i64>) -> Core {
    let total = whole_fragments(count);
    if total == 0 {
        without_fragments(core)
    } else {
        Core { phase: Phase::LowerPower, total: total as u64, remaining: total as u64, ..core }
    }
}

/// The run once the uniform draw of a fragment's length is in.
pub open spec fn with_uniform(core: Core, y: i64) -> Core {
    if y < 0 || y > UNIT {
        failed(core, Stage::Length, Cause::Undefined)
    } else {
        match narrowed(power_law_base(core.lower_power as int, core.upper_power as int, y as int)) {
            Some(base) => Core {
                phase: Phase::Length,
                draft: Draft { base, ..empty_draft() },
                ..core
            },
            None => failed(core, Stage::Length, Cause::OutOfRange),
        }
    }
}

/// The run once the length of a fragment is in. A length of zero or less
/// has no logarithm, and fails the run.
pub open spec fn with_length(core: Core, length: i64) -> Core {
    if length <= 0 {
        failed(core, Stage::Length, Cause::NotPositive)
    } else {
        match area_plan(length as int) {
            Ok(AreaPlan::Known(area)) => Core {
                phase: Phase::Lambda,
                draft: Draft { length, area, ..core.draft },
                ..core
            },
            Ok(AreaPlan::NeedsPower) => Core {
                phase: Phase::AreaPower,
                draft: Draft { length, ..core.draft },
                ..core
            },
            Err(error) => Core { phase: Phase::Failed(error), ..core },
        }
    }
}

/// The run once the power of the area law is in. An area of zero or less
/// fails the run.
pub open spec fn with_area_power(core: Core, power: i128) -> Core {
    match widened(area_large(power as int)) {
        None => failed(core, Stage::Area, Cause::OutOfRange),
        Some(area) => if area <= 0 {
            failed(core, Stage::Area, Cause::NotPositive)
        } else {
            Core { phase: Phase::Lambda, draft: Draft { area, ..core.draft }, ..core }
        },
    }
}

/// The run once the logarithm of the length is in: it goes on with the
/// draws of the regime.
pub open spec fn with_lambda(core: Core, lambda: i64) -> Core {
    Core {
        phase: match regime_of(lambda as int) {
            Regime::Large => Phase::FirstDraw,
            _ => Phase::SmallDraw,
        },
        draft: Draft { lambda, ..core.draft },
        ..core
    }
}

/// The run once the draw of a small object is in.
pub open spec fn with_small_draw(core: Core, draw: i64) -> Core {
    Core {
        phase: match regime_of(core.draft.lambda as int) {
            Regime::Small => Phase::SmallValue,
            _ => Phase::FirstDraw,
        },
        draft: Draft { small_draw: draw, ..core.draft },
        ..core
    }
}

/// The run once the second draw of a large object is in: the two draws are
/// mixed.
pub open spec fn with_second_draw(core: Core, draw: i64) -> Core {
    match narrowed(
        mixture_of(
            core.event.kind_of(),
            core.draft.lambda as int,
            core.draft.first_draw as int,
            draw as int,
        ),
    ) {
        Some(mixture) => Core {
            phase: match regime_of(core.draft.lambda as int) {
                Regime::Large => Phase::LargeValue,
                _ => Phase::SmallValue,
            },
            draft: Draft { mixture, ..core.draft },
            ..core
        },
        None => failed(core, Stage::AmRatio, Cause::OutOfRange),
    }
}

/// The run once the area-to-mass ratio is known: the mass follows. Neither
/// may be zero or less.
pub open spec fn with_ratio(core: Core, ratio: Option<i64>) -> Core {
    match ratio {
        None => failed(core, Stage::AmRatio, Cause::OutOfRange),
        Some(am) => if am <= 0 {
            failed(core, Stage::AmRatio, Cause::NotPositive)
        } else {
            match widened(mass_of(core.draft.area as int, am as int)) {
                None => failed(core, Stage::Mass, Cause::OutOfRange),
                Some(mass) => if mass <= 0 {
                    failed(core, Stage::Mass, Cause::NotPositive)
                } else {
                    Core {
                        phase: Phase::Chi,
                        draft: Draft { am_ratio: am, mass, ..core.draft },
                        ..core
                    }
                },
            }
        },
    }
}

/// The run once ten to the draw of a small object is in.
pub open spec fn with_small_value(core: Core, value: i64) -> Core {
    match regime_of(core.draft.lambda as int) {
        Regime::Small => with_ratio(core, Some(value)),
        _ => Core {
            phase: Phase::LargeValue,
            draft: Draft { small_value: value, ..core.draft },
            ..core
        },
    }
}

/// The run once ten to the mixture is in.
pub open spec fn with_large_value(core: Core, value: i64) -> Core {
    with_ratio(
        core,
        narrowed(
            am_ratio_of(
                core.draft.lambda as int,
                core.draft.length as int,
                core.draft.small_value as int,
                value as int,
            ),
        ),
    )
}

/// The run once the logarithm of the area-to-mass ratio is in.
pub open spec fn with_chi(core: Core, chi: i64) -> Core {
    let offset = core.event.offset_of();
    match narrowed(speed_mean_of(offset.0 as int, offset.1 as int, chi as int)) {
        Some(mean) => Core {
            phase: Phase::Speed,
            draft: Draft { speed_mean: mean, ..core.draft },
            ..core
        },
        None => failed(core, Stage::Velocity, Cause::OutOfRange),
    }
}

/// The row that a draft and a direction make.
pub open spec fn row_of(core: Core, direction: Vector3) -> Fragment {
    Fragment {
        origin: core.event.location_of(),
        characteristic_length: core.draft.length,
        am_ratio: core.draft.am_ratio,
        area: core.draft.area,
        mass: core.draft.mass,
        velocity: velocity_of(core.draft.speed as int, direction),
    }
}

/// The run once a row is made: it ends with the last row, and goes on to the
/// next fragment before that.
pub open spec fn with_row(core: Core) -> Core {
    if core.remaining <= 1 {
        Core { phase: Phase::Finished, remaining: 0, ..core }
    } else {
        Core { phase: Phase::Uniform, remaining: (core.remaining - 1) as u64, ..core }
    }
}

/// The run once the direction is in, and the row that it completes.
pub open spec fn with_direction(core: Core, direction: Vector3) -> (Core, Option<Fragment>) {
    if !is_direction(direction) {
        (failed(core, Stage::Velocity, Cause::Undefined), None)
    } else if !velocity_fits(core.draft.speed as int, direction) {
        (failed(core, Stage::Velocity, Cause::OutOfRange), None)
    } else {
        (with_row(core), Some(row_of(core, direction)))
    }
}

/// The run after a number has come in.
pub open spec fn with_value(core: Core, value: i64) -> Core {
    match core.phase {
        Phase::MassPower => Core { phase: Phase::CountPower, mass_power: value, ..core },
        Phase::CountPower => counted(core, core.event.count_of(core.mass_power as int, value as int)),
        Phase::LowerPower => Core { phase: Phase::UpperPower, lower_power: value, ..core },
        Phase::UpperPower => Core { phase: Phase::Uniform, upper_power: value, ..core },
        Phase::Uniform => with_uniform(core, value),
        Phase::Length => with_length(core, value),
        Phase::AreaPower => without_answer(core),
        Phase::Lambda => with_lambda(core, value),
        Phase::SmallDraw => with_small_draw(core, value),
        Phase::FirstDraw => Core {
            phase: Phase::SecondDraw,
            draft: Draft { first_draw: value, ..core.draft },
            ..core
        },
        Phase::SecondDraw => with_second_draw(core, value),
        Phase::SmallValue => with_small_value(core, value),
        Phase::LargeValue => with_large_value(core, value),
        Phase::Chi => with_chi(core, value),
        Phase::Speed => Core {
            phase: Phase::Direction,
            draft: Draft { speed: value, ..core.draft },
            ..core
        },
        Phase::Direction => without_answer(core),
        Phase::Finished => core,
        Phase::Failed(_) => core,
    }
}

/// The run after an answer that is no use: an answer of the wrong shape, or
/// none. Without its count a run has no fragments; at any later step it
/// fails at the stage that the step belongs to.
pub open spec fn without_answer(core: Core) -> Core {
    match core.phase {
        Phase::MassPower | Phase::CountPower => without_fragments(core),
        Phase::LowerPower | Phase::UpperPower | Phase::Uniform | Phase::Length => failed(
            core,
            Stage::Length,
            Cause::Undefined,
        ),
        Phase::AreaPower => failed(core, Stage::Area, Cause::Undefined),
        Phase::Lambda | Phase::SmallDraw | Phase::FirstDraw | Phase::SecondDraw
        | Phase::SmallValue | Phase::LargeValue => failed(core, Stage::AmRatio, Cause::Undefined),
        Phase::Chi | Phase::Speed | Phase::Direction => failed(
            core,
            Stage::Velocity,
            Cause::Undefined,
        ),
        Phase::Finished => core,
        Phase::Failed(_) => core,
    }
}

/// One step of a run: the state after the host's answer, and the row that
/// the answer completes, if it completes one.
pub open spec fn advance(core: Core, reply: Reply) -> (Core, Option<Fragment>) {
    match reply {
        Reply::Value(value) => (with_value(core, value), None),
        Reply::Fine(power) => match core.phase {
            Phase::AreaPower => (with_area_power(core, power), None),
            _ => (without_answer(core), None),
        },
        Reply::Vector(direction) => match core.phase {
            Phase::Direction => with_direction(core, direction),
            _ => (without_answer(core), None),
        },
        Reply::Undefined => (without_answer(core), None),
    }
}

/// One step of a run on its whole state.
pub open spec fn next(state: State, reply: Reply) -> State {
    let (core, row) = advance(state.core, reply);
    State {
        core,
        rows: match row {
            Some(fragment) => state.rows.push(fragment),
            None => state.rows,
        },
    }
}

/// The state in which a run of an event starts, with no row made.
pub open spec fn started(event: FragmentationEvent) -> State {
    State { core: initial(event), rows: Seq::empty() }
}

/// The state of a run after a sequence of answers.
pub open spec fn replay(start: State, replies: Seq<Reply>) -> State
    decreases replies.len(),
{
    if replies.len() == 0 {
        start
    } else {
        next(replay(start, replies.drop_last()), replies.last())
    }
}

/// The run after a uniform draw has come in.
pub open spec fn after_draw(state: State, y: i64) -> State {
    next(state, Reply::Value(y))
}

} // verus!
