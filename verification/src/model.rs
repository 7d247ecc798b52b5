//! The breakup model: the pipeline that turns one event into its fragments.
//!
//! A run is a sequence of steps. At each step the model names the one
//! operation that it needs of its host (a power, a logarithm, a draw); the
//! host performs it and supplies the outcome, and the model moves on. The
//! order of the steps, what each one asks, what it does with the answer and
//! when the run fails are all decided here. A run ends with a complete table
//! of fragments or with an error, never with part of a table.

use crate::am_ratio::Regime;
use crate::am_ratio::am_ratio;
use crate::am_ratio::mean_1;
use crate::am_ratio::mean_2;
use crate::am_ratio::mean_soc;
use crate::am_ratio::mixture;
use crate::am_ratio::regime;
use crate::am_ratio::sigma_1;
use crate::am_ratio::sigma_2;
use crate::am_ratio::sigma_soc;
use crate::error::Cause;
use crate::error::ModelError;
use crate::error::Stage;
use crate::event::FragmentationEvent;
use crate::fixed::UNIT;
use crate::host::Reply;
use crate::host::Request;
use crate::regression::AREA_LARGE_EXPONENT;
use crate::regression::AreaPlan;
use crate::regression::COLLISION_MASS_EXPONENT;
use crate::regression::area;
use crate::regression::area_from_power;
use crate::regression::fragment_total;
use crate::regression::mass;
use crate::regression::power_law;
use crate::regression::power_law_exponents;
use crate::sampler::uniform_reply;
use crate::satellite::Vector3;
use crate::soundness::consistent;
use crate::soundness::ended;
use crate::soundness::lemma_count_is_fixed;
use crate::soundness::lemma_initial_consistent;
use crate::soundness::lemma_next_consistent;
use crate::soundness::lemma_progress;
use crate::soundness::lemma_requests;
use crate::soundness::sound_row;
use crate::soundness::steps_left;
use crate::steps::Core;
use crate::steps::Draft;
use crate::steps::Fragment;
use crate::steps::MIN_CHARACTERISTIC_LENGTH;
use crate::steps::Phase;
use crate::steps::State;
use crate::steps::TEN;
use crate::steps::advance;
use crate::steps::after_draw;
use crate::steps::counted;
use crate::steps::empty_draft;
use crate::steps::failed;
use crate::steps::initial;
use crate::steps::next;
use crate::steps::pending;
use crate::steps::replay;
use crate::steps::started;
use crate::steps::with_area_power;
use crate::steps::with_chi;
use crate::steps::with_direction;
use crate::steps::with_lambda;
use crate::steps::with_large_value;
use crate::steps::with_length;
use crate::steps::with_ratio;
use crate::steps::with_second_draw;
use crate::steps::with_small_draw;
use crate::steps::with_small_value;
use crate::steps::with_uniform;
use crate::steps::with_value;
use crate::steps::without_answer;
use crate::steps::without_fragments;
use crate::velocity::SPEED_DEVIATION;
use crate::velocity::is_unit;
use crate::velocity::speed_mean;
use crate::velocity::velocity;
use rand::rngs::StdRng;
use vstd::prelude::*;

verus! {

/// A request that a run may make: no normal draw is asked for with a
/// standard deviation that is not positive.
pub open spec fn askable(request: Request) -> bool {
    request matches Request::Normal { mean, std_dev } ==> std_dev > 0
}

/// Whether `reply` is an answer to `request`: a number from `[0, 1]` to a
/// request for a uniform draw, which the run draws itself; to any other
/// request, what the host returned for it.
pub open spec fn answers<H: Fn(Request) -> Reply>(host: H, request: Request, reply: Reply) -> bool {
    match request {
        Request::Uniform => reply matches Reply::Value(y) && 0 <= y <= UNIT,
        _ => call_ensures(host, (request,), reply),
    }
}

/// Whether the answer at place `i` of a sequence answers what the run asked
/// after the answers before it.
pub open spec fn answered_at<H: Fn(Request) -> Reply>(
    host: H,
    start: State,
    replies: Seq<Reply>,
    i: int,
) -> bool {
    pending(replay(start, replies.take(i)).core) matches Some(request) && answers(
        host,
        request,
        replies[i],
    )
}

/// Whether a sequence of answers is the record of a run: each one answers
/// what the run asked at its turn.
pub open spec fn is_record<H: Fn(Request) -> Reply>(
    host: H,
    start: State,
    replies: Seq<Reply>,
) -> bool {
    forall|i: int| 0 <= i < replies.len() ==> #[trigger] answered_at(host, start, replies, i)
}

/// Whether a result is that of a run in this state: the rows of a finished
/// run, the error of a failed one.
pub open spec fn is_result(state: State, result: Result<Vec<Fragment>, ModelError>) -> bool {
    match result {
        Ok(table) => state.core.phase is Finished && table@ == state.rows,
        Err(error) => state.core.phase == Phase::Failed(error),
    }
}

/// Whether a result is that of a whole run of an event on a record of
/// answers: the record leads from the start of the run to its end, where
/// the run is consistent, so that a finished run has made every row that it
/// counted, and the result is what the run ended with.
pub open spec fn is_run<H: Fn(Request) -> Reply>(
    host: H,
    event: FragmentationEvent,
    replies: Seq<Reply>,
    result: Result<Vec<Fragment>, ModelError>,
) -> bool {
    &&& is_record(host, started(event), replies)
    &&& ended(replay(started(event), replies).core.phase)
    &&& consistent(replay(started(event), replies))
    &&& is_result(replay(started(event), replies), result)
}

/// A record with one more answer to what the run asks next is a record,
/// and leads one step on.
proof fn lemma_record_grows<H: Fn(Request) -> Reply>(
    host: H,
    start: State,
    replies: Seq<Reply>,
    reply: Reply,
)
    requires
        is_record(host, start, replies),
        pending(replay(start, replies).core) matches Some(request) && answers(host, request, reply),
    ensures
        is_record(host, start, replies.push(reply)),
        replay(start, replies.push(reply)) == next(replay(start, replies), reply),
{
    let longer = replies.push(reply);
    assert(longer.drop_last() =~= replies);
    assert forall|i: int| 0 <= i < longer.len() implies #[trigger] answered_at(
        host,
        start,
        longer,
        i,
    ) by {
        if i < replies.len() {
            assert(longer.take(i) =~= replies.take(i));
            assert(answered_at(host, start, replies, i));
        } else {
            assert(longer.take(i) =~= replies);
        }
    }
}

/// Fails a run at a stage.
fn fail(core: Core, stage: Stage, cause: Cause) -> (r: Core)
    ensures
        r == failed(core, stage, cause),
{
    Core { phase: Phase::Failed(ModelError::Failed { stage, cause }), ..core }
}

/// Ends a run with a table of no rows.
fn finish_empty(core: Core) -> (r: Core)
    ensures
        r == without_fragments(core),
{
    Core { phase: Phase::Finished, total: 0, remaining: 0, ..core }
}

/// Makes a draft with nothing in it.
fn blank_draft() -> (r: Draft)
    ensures
        r == empty_draft(),
{
    Draft {
        base: 0,
        length: 0,
        area: 0,
        lambda: 0,
        small_draw: 0,
        first_draw: 0,
        mixture: 0,
        small_value: 0,
        am_ratio: 0,
        mass: 0,
        speed_mean: 0,
        speed: 0,
    }
}

/// Starts a run.
fn start(event: FragmentationEvent) -> (r: Core)
    ensures
        r == initial(event),
{
    let blank = Core {
        event,
        shifted: 0,
        inverse: 0,
        phase: Phase::Finished,
        mass_power: 0,
        total: 0,
        remaining: 0,
        lower_power: 0,
        upper_power: 0,
        draft: blank_draft(),
    };
    match power_law_exponents(event.power_law_exponent()) {
        Err(error) => Core { phase: Phase::Failed(error), ..blank },
        Ok((shifted, inverse)) => {
            let ready = Core { shifted, inverse, ..blank };
            match event {
                FragmentationEvent::Collision(c) => match c.mass_basis() {
                    Some(_) => Core { phase: Phase::MassPower, ..ready },
                    None => ready,
                },
                FragmentationEvent::Explosion(_) => Core { phase: Phase::CountPower, ..ready },
            }
        },
    }
}

/// Names what a run waits for.
fn request_of(core: &Core) -> (r: Option<Request>)
    ensures
        r == pending(*core),
{
    let kind = core.event.kind();
    let lambda: i64 = core.draft.lambda;
    match core.phase {
        Phase::MassPower => match core.event {
            FragmentationEvent::Collision(c) => match c.mass_basis() {
                Some(basis) => Some(
                    Request::Power { base: basis, exponent: COLLISION_MASS_EXPONENT },
                ),
                None => None,
            },
            FragmentationEvent::Explosion(_) => None,
        },
        Phase::CountPower => Some(
            Request::Power {
                base: MIN_CHARACTERISTIC_LENGTH,
                exponent: core.event.count_exponent(),
            },
        ),
        Phase::LowerPower => Some(
            Request::Power { base: MIN_CHARACTERISTIC_LENGTH, exponent: core.shifted },
        ),
        Phase::UpperPower => Some(
            Request::Power { base: core.event.max_characteristic_length(), exponent: core.shifted },
        ),
        Phase::Uniform => Some(Request::Uniform),
        Phase::Length => Some(Request::Power { base: core.draft.base, exponent: core.inverse }),
        Phase::AreaPower => Some(
            Request::FinePower { base: core.draft.length, exponent: AREA_LARGE_EXPONENT },
        ),
        Phase::Lambda => Some(Request::Log10 { value: core.draft.length }),
        Phase::SmallDraw => Some(
            Request::Normal { mean: mean_soc(lambda), std_dev: sigma_soc(lambda) },
        ),
        Phase::FirstDraw => Some(
            Request::Normal { mean: mean_1(&kind, lambda), std_dev: sigma_1(&kind, lambda) },
        ),
        Phase::SecondDraw => Some(
            Request::Normal { mean: mean_2(&kind, lambda), std_dev: sigma_2(&kind, lambda) },
        ),
        Phase::SmallValue => Some(Request::Power { base: TEN, exponent: core.draft.small_draw }),
        Phase::LargeValue => Some(Request::Power { base: TEN, exponent: core.draft.mixture }),
        Phase::Chi => Some(Request::Log10 { value: core.draft.am_ratio }),
        Phase::Speed => Some(
            Request::Normal { mean: core.draft.speed_mean, std_dev: SPEED_DEVIATION },
        ),
        Phase::Direction => Some(Request::Direction),
        Phase::Finished => None,
        Phase::Failed(_) => None,
    }
}

/// Takes the fragment count in.
fn take_count(core: Core, count: Option<i64>) -> (r: Core)
    ensures
        r == counted(core, count),
{
    let total: u64 = fragment_total(count);
    if total == 0 {
        finish_empty(core)
    } else {
        Core { phase: Phase::LowerPower, total, remaining: total, ..core }
    }
}

/// Takes the uniform draw of a fragment's length in.
fn take_uniform(core: Core, y: i64) -> (r: Core)
    ensures
        r == with_uniform(core, y),
{
    if y < 0 || y > UNIT {
        return fail(core, Stage::Length, Cause::Undefined);
    }
    match power_law(core.lower_power, core.upper_power, y) {
        Some(base) => Core {
            phase: Phase::Length,
            draft: Draft { base, ..blank_draft() },
            ..core
        },
        None => fail(core, Stage::Length, Cause::OutOfRange),
    }
}

/// Takes the length of a fragment in.
fn take_length(core: Core, length: i64) -> (r: Core)
    ensures
        r == with_length(core, length),
{
    if length <= 0 {
        return fail(core, Stage::Length, Cause::NotPositive);
    }
    match area(length) {
        Ok(AreaPlan::Known(area)) => Core {
            phase: Phase::Lambda,
            draft: Draft { length, area, ..core.draft },
            ..core
        },
        Ok(AreaPlan::NeedsPower) => Core {
            phase: Phase::AreaPower,
            draft: Draft { length, ..core.draft },
            ..core
        },
        Err(error) => Core { phase: Phase::Failed(error), ..core },
    }
}

/// Takes the power of the area law in.
fn take_area_power(core: Core, power: i128) -> (r: Core)
    ensures
        r == with_area_power(core, power),
{
    match area_from_power(power) {
        None => fail(core, Stage::Area, Cause::OutOfRange),
        Some(area) => {
            if area <= 0 {
                fail(core, Stage::Area, Cause::NotPositive)
            } else {
                Core { phase: Phase::Lambda, draft: Draft { area, ..core.draft }, ..core }
            }
        },
    }
}

/// Takes the logarithm of the length in.
fn take_lambda(core: Core, lambda: i64) -> (r: Core)
    ensures
        r == with_lambda(core, lambda),
{
    let phase = match regime(lambda) {
        Regime::Large => Phase::FirstDraw,
        _ => Phase::SmallDraw,
    };
    Core { phase, draft: Draft { lambda, ..core.draft }, ..core }
}

/// Takes the draw of a small object in.
fn take_small_draw(core: Core, draw: i64) -> (r: Core)
    ensures
        r == with_small_draw(core, draw),
{
    let phase = match regime(core.draft.lambda) {
        Regime::Small => Phase::SmallValue,
        _ => Phase::FirstDraw,
    };
    Core { phase, draft: Draft { small_draw: draw, ..core.draft }, ..core }
}

/// Takes the second draw of a large object in.
fn take_second_draw(core: Core, draw: i64) -> (r: Core)
    ensures
        r == with_second_draw(core, draw),
{
    let kind = core.event.kind();
    match mixture(&kind, core.draft.lambda, core.draft.first_draw, draw) {
        Some(mixture) => {
            let phase = match regime(core.draft.lambda) {
                Regime::Large => Phase::LargeValue,
                _ => Phase::SmallValue,
            };
            Core { phase, draft: Draft { mixture, ..core.draft }, ..core }
        },
        None => fail(core, Stage::AmRatio, Cause::OutOfRange),
    }
}

/// Takes the area-to-mass ratio in, and derives the mass.
fn take_ratio(core: Core, ratio: Option<i64>) -> (r: Core)
    ensures
        r == with_ratio(core, ratio),
{
    match ratio {
        None => fail(core, Stage::AmRatio, Cause::OutOfRange),
        Some(am) => {
            if am <= 0 {
                return fail(core, Stage::AmRatio, Cause::NotPositive);
            }
            match mass(core.draft.area, am) {
                None => fail(core, Stage::Mass, Cause::OutOfRange),
                Some(mass) => {
                    if mass <= 0 {
                        fail(core, Stage::Mass, Cause::NotPositive)
                    } else {
                        Core {
                            phase: Phase::Chi,
                            draft: Draft { am_ratio: am, mass, ..core.draft },
                            ..core
                        }
                    }
                },
            }
        },
    }
}

/// Takes ten to the draw of a small object in.
fn take_small_value(core: Core, value: i64) -> (r: Core)
    ensures
        r == with_small_value(core, value),
{
    match regime(core.draft.lambda) {
        Regime::Small => take_ratio(core, Some(value)),
        _ => Core {
            phase: Phase::LargeValue,
            draft: Draft { small_value: value, ..core.draft },
            ..core
        },
    }
}

/// Takes ten to the mixture in.
fn take_large_value(core: Core, value: i64) -> (r: Core)
    ensures
        r == with_large_value(core, value),
{
    take_ratio(
        core,
        am_ratio(core.draft.lambda, core.draft.length, core.draft.small_value, value),
    )
}

/// Takes the logarithm of the area-to-mass ratio in.
fn take_chi(core: Core, chi: i64) -> (r: Core)
    ensures
        r == with_chi(core, chi),
{
    match speed_mean(core.event.delta_velocity_offset(), chi) {
        Some(mean) => Core {
            phase: Phase::Speed,
            draft: Draft { speed_mean: mean, ..core.draft },
            ..core
        },
        None => fail(core, Stage::Velocity, Cause::OutOfRange),
    }
}

/// Takes the direction in, and makes the row.
fn take_direction(core: Core, direction: Vector3) -> (r: (Core, Option<Fragment>))
    ensures
        r == with_direction(core, direction),
{
    if !is_unit(&direction) {
        return (fail(core, Stage::Velocity, Cause::Undefined), None);
    }
    match velocity(core.draft.speed, direction) {
        None => (fail(core, Stage::Velocity, Cause::OutOfRange), None),
        Some(velocity) => {
            let row = Fragment {
                origin: core.event.location(),
                characteristic_length: core.draft.length,
                am_ratio: core.draft.am_ratio,
                area: core.draft.area,
                mass: core.draft.mass,
                velocity,
            };
            let after = if core.remaining <= 1 {
                Core { phase: Phase::Finished, remaining: 0, ..core }
            } else {
                Core { phase: Phase::Uniform, remaining: core.remaining - 1, ..core }
            };
            (after, Some(row))
        },
    }
}

/// Takes a number in.
fn take_value(core: Core, value: i64) -> (r: Core)
    ensures
        r == with_value(core, value),
{
    match core.phase {
        Phase::MassPower => Core { phase: Phase::CountPower, mass_power: value, ..core },
        Phase::CountPower => take_count(core, core.event.fragment_count(core.mass_power, value)),
        Phase::LowerPower => Core { phase: Phase::UpperPower, lower_power: value, ..core },
        Phase::UpperPower => Core { phase: Phase::Uniform, upper_power: value, ..core },
        Phase::Uniform => take_uniform(core, value),
        Phase::Length => take_length(core, value),
        Phase::AreaPower => take_nothing(core),
        Phase::Lambda => take_lambda(core, value),
        Phase::SmallDraw => take_small_draw(core, value),
        Phase::FirstDraw => Core {
            phase: Phase::SecondDraw,
            draft: Draft { first_draw: value, ..core.draft },
            ..core
        },
        Phase::SecondDraw => take_second_draw(core, value),
        Phase::SmallValue => take_small_value(core, value),
        Phase::LargeValue => take_large_value(core, value),
        Phase::Chi => take_chi(core, value),
        Phase::Speed => Core {
            phase: Phase::Direction,
            draft: Draft { speed: value, ..core.draft },
            ..core
        },
        Phase::Direction => take_nothing(core),
        Phase::Finished => core,
        Phase::Failed(_) => core,
    }
}

/// Goes on without an answer.
fn take_nothing(core: Core) -> (r: Core)
    ensures
        r == without_answer(core),
{
    match core.phase {
        Phase::MassPower | Phase::CountPower => finish_empty(core),
        Phase::LowerPower | Phase::UpperPower | Phase::Uniform | Phase::Length => fail(
            core,
            Stage::Length,
            Cause::Undefined,
        ),
        Phase::AreaPower => fail(core, Stage::Area, Cause::Undefined),
        Phase::Lambda | Phase::SmallDraw | Phase::FirstDraw | Phase::SecondDraw
        | Phase::SmallValue | Phase::LargeValue => fail(core, Stage::AmRatio, Cause::Undefined),
        Phase::Chi | Phase::Speed | Phase::Direction => fail(
            core,
            Stage::Velocity,
            Cause::Undefined,
        ),
        Phase::Finished => core,
        Phase::Failed(_) => core,
    }
}

/// Takes one answer in.
fn step(core: Core, reply: Reply) -> (r: (Core, Option<Fragment>))
    ensures
        r == advance(core, reply),
{
    match reply {
        Reply::Value(value) => (take_value(core, value), None),
        Reply::Fine(power) => match core.phase {
            Phase::AreaPower => (take_area_power(core, power), None),
            _ => (take_nothing(core), None),
        },
        Reply::Vector(direction) => match core.phase {
            Phase::Direction => take_direction(core, direction),
            _ => (take_nothing(core), None),
        },
        Reply::Undefined => (take_nothing(core), None),
    }
}

/// A run of the breakup model on one event.
pub struct BreakupModel {
    core: Core,
    rows: Vec<Fragment>,
}

impl View for BreakupModel {
    type V = State;

    closed spec fn view(&self) -> State {
        State { core: self.core, rows: self.rows@ }
    }
}

impl BreakupModel {
    /// Starts a run on an event, with no row made.
    pub fn new(event: FragmentationEvent) -> (r: BreakupModel)
        ensures
            r@ == started(event),
            consistent(r@),
    {
        proof {
            lemma_initial_consistent(event);
        }
        BreakupModel { core: start(event), rows: Vec::new() }
    }

    /// The operation that the run waits for, or nothing where it has ended.
    pub fn request(&self) -> (r: Option<Request>)
        ensures
            r == pending(self@.core),
    {
        request_of(&self.core)
    }

    /// Where the run stands.
    pub fn phase(&self) -> (r: Phase)
        ensures
            r == self@.core.phase,
    {
        self.core.phase
    }

    /// The number of rows of the table, once it has been counted.
    pub fn total(&self) -> (r: u64)
        ensures
            r == self@.core.total,
    {
        self.core.total
    }

    /// Hands the outcome of the pending operation to the run.
    pub fn supply(&mut self, reply: Reply)
        ensures
            final(self)@ == next(old(self)@, reply),
            consistent(old(self)@) ==> consistent(final(self)@),
    {
        proof {
            if consistent(self@) {
                lemma_next_consistent(self@, reply);
            }
        }
        let (core, row) = step(self.core, reply);
        self.core = core;
        match row {
            Some(fragment) => {
                self.rows.push(fragment);
            },
            None => {},
        }
    }

    /// Answers a pending request for a uniform draw from the generator. Any
    /// other request is left pending.
    pub fn draw(&mut self, rng: &mut StdRng)
        ensures
            old(self)@.core.phase is Uniform ==> exists|y: i64|
                0 <= y <= UNIT && final(self)@ == #[trigger] after_draw(old(self)@, y),
            !(old(self)@.core.phase is Uniform) ==> final(self)@ == old(self)@,
            consistent(old(self)@) ==> consistent(final(self)@),
    {
        match self.core.phase {
            Phase::Uniform => {
                let reply = uniform_reply(rng);
                self.supply(reply);
                proof {
                    let y = reply->Value_0;
                    assert(self@ == after_draw(old(self)@, y));
                }
            },
            _ => {},
        }
    }

    /// Runs the model on an event to its end: draws every uniform number
    /// from the generator, asks the host for every other operation, and
    /// returns the whole table or the error of the stage that failed. The
    /// result is the one that the steps of the model lead to on the answers
    /// that were given; a table has as many rows as were counted, and every
    /// row is sound.
    pub fn run<H: Fn(Request) -> Reply>(event: &FragmentationEvent, rng: &mut StdRng, host: H) -> (r:
        Result<Vec<Fragment>, ModelError>)
        requires
            forall|request: Request| askable(request) ==> call_requires(host, (request,)),
        ensures
            exists|replies: Seq<Reply>| #[trigger] is_run(host, *event, replies, r),
            r matches Ok(table) ==> forall|i: int|
                0 <= i < table@.len() ==> sound_row(*event, #[trigger] table@[i]),
    {
        let mut model = BreakupModel::new(*event);
        let ghost start = model@;
        let ghost mut replies: Seq<Reply> = Seq::empty();
        loop
            invariant
                start == started(*event),
                model@ == replay(start, replies),
                model@.core.event == *event,
                is_record(host, start, replies),
                consistent(model@),
                forall|request: Request| askable(request) ==> call_requires(host, (request,)),
            ensures
                ended(model@.core.phase),
            decreases steps_left(model@.core),
        {
            let pending = model.request();
            proof {
                lemma_requests(model@);
            }
            if pending.is_none() {
                break;
            }
            let request = pending.unwrap();
            assert(askable(request));
            let reply = match request {
                Request::Uniform => uniform_reply(rng),
                _ => host(request),
            };
            proof {
                lemma_progress(model@, reply);
                lemma_count_is_fixed(model@, reply);
                lemma_record_grows(host, start, replies, reply);
            }
            model.supply(reply);
            proof {
                replies = replies.push(reply);
            }
        }
        match model.outcome() {
            Some(result) => {
                proof {
                    assert(is_run(host, *event, replies, result));
                }
                result
            },
            // A run that asks for nothing has ended, and has an outcome.
            None => Err(ModelError::InvalidEvent),
        }
    }

    /// The outcome of the run: the table where it is complete, the error
    /// where the run failed, nothing while an operation is pending.
    pub fn outcome(self) -> (r: Option<Result<Vec<Fragment>, ModelError>>)
        ensures
            match self@.core.phase {
                Phase::Finished => r matches Some(Ok(table)) && table@ == self@.rows,
                Phase::Failed(e) => r == Some(Err::<Vec<Fragment>, ModelError>(e)),
                _ => r.is_none(),
            },
            consistent(self@) ==> (r matches Some(Ok(table)) ==> table@.len() == self@.core.total
                && forall|i: int|
                0 <= i < table@.len() ==> sound_row(self@.core.event, #[trigger] table@[i])),
    {
        match self.core.phase {
            Phase::Finished => Some(Ok(self.rows)),
            Phase::Failed(e) => Some(Err(e)),
            _ => None,
        }
    }
}

} // verus!
