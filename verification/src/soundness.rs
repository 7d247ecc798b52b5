//! What holds of every run of the breakup model, whatever the host answers.

use crate::am_ratio::lemma_deviations_positive;
use crate::event::FragmentationEvent;
use crate::host::Reply;
use crate::host::Request;
use crate::steps::advance;
use crate::steps::initial;
use crate::steps::next;
use crate::steps::pending;
use crate::steps::replay;
use crate::steps::started;
use crate::steps::Core;
use crate::steps::Fragment;
use crate::steps::Phase;
use crate::steps::State;
use crate::regression::lemma_area_small_positive;
use crate::regression::mass_of;
use vstd::prelude::*;

verus! {

/// What holds of every row of a table: it starts at the event, its length,
/// area, area-to-mass ratio and mass are positive, and its mass is its area
/// over its area-to-mass ratio.
pub open spec fn sound_row(event: FragmentationEvent, row: Fragment) -> bool {
    &&& row.origin == event.location_of()
    &&& row.characteristic_length > 0
    &&& row.area > 0
    &&& row.am_ratio > 0
    &&& row.mass > 0
    &&& row.mass == mass_of(row.area as int, row.am_ratio as int)
}

/// Whether a run has ended.
pub open spec fn ended(phase: Phase) -> bool {
    phase is Finished || phase is Failed
}

/// Whether a phase belongs to the making of a fragment.
pub open spec fn making(phase: Phase) -> bool {
    !ended(phase) && !(phase is MassPower) && !(phase is CountPower) && !(phase is LowerPower)
        && !(phase is UpperPower)
}

/// Whether the length of the fragment in the making is known in a phase.
pub open spec fn length_known(phase: Phase) -> bool {
    making(phase) && !(phase is Uniform) && !(phase is Length)
}

/// Whether the area of the fragment in the making is known in a phase.
pub open spec fn area_known(phase: Phase) -> bool {
    length_known(phase) && !(phase is AreaPower)
}

/// Whether the mass of the fragment in the making is known in a phase.
pub open spec fn mass_known(phase: Phase) -> bool {
    phase is Chi || phase is Speed || phase is Direction
}

/// What holds of every state that a run can reach.
pub open spec fn consistent(state: State) -> bool {
    let core = state.core;
    &&& state.rows.len() + core.remaining == core.total
    &&& forall|i: int| 0 <= i < state.rows.len() ==> sound_row(core.event, #[trigger] state.rows[i])
    &&& core.phase is MassPower ==> core.event is Collision
        && core.event->Collision_0.mass_basis_of().is_some()
    &&& core.phase is MassPower || core.phase is CountPower ==> core.total == 0
    &&& core.phase is LowerPower || core.phase is UpperPower ==> core.remaining == core.total
        && core.total >= 1
    &&& making(core.phase) ==> core.remaining >= 1
    &&& core.phase is Finished ==> core.remaining == 0
    &&& length_known(core.phase) ==> core.draft.length > 0
    &&& area_known(core.phase) ==> core.draft.area > 0
    &&& mass_known(core.phase) ==> core.draft.am_ratio > 0 && core.draft.mass > 0
        && core.draft.mass == mass_of(core.draft.area as int, core.draft.am_ratio as int)
}

/// A run starts in a consistent state.
pub proof fn lemma_initial_consistent(event: FragmentationEvent)
    ensures
        consistent(State { core: initial(event), rows: Seq::empty() }),
{
}

/// No run of an event fails before its first answer: the exponent of
/// neither kind of event is the one without an inverse.
pub proof fn lemma_start(event: FragmentationEvent)
    ensures
        !(initial(event).phase is Failed),
        initial(event).phase is Finished ==> event is Collision
            && event->Collision_0.mass_basis_of().is_none(),
{
}

/// Every step keeps a run consistent.
pub proof fn lemma_next_consistent(state: State, reply: Reply)
    requires
        consistent(state),
    ensures
        consistent(next(state, reply)),
{
    let after = next(state, reply);
    let (core, row) = advance(state.core, reply);
    assert(core.event == state.core.event);
    if reply is Value {
        lemma_area_small_positive(reply->Value_0 as int);
    }
    match row {
        Some(fragment) => {
            assert(sound_row(core.event, fragment));
            assert forall|i: int| 0 <= i < after.rows.len() implies sound_row(
                core.event,
                #[trigger] after.rows[i],
            ) by {
                if i < state.rows.len() {
                    assert(after.rows[i] == state.rows[i]);
                }
            }
        },
        None => {},
    }
}

/// Whatever the answers, a run is in a consistent state after them.
pub proof fn lemma_replay_consistent(event: FragmentationEvent, replies: Seq<Reply>)
    ensures
        consistent(replay(started(event), replies)),
    decreases replies.len(),
{
    if replies.len() == 0 {
        lemma_initial_consistent(event);
    } else {
        lemma_replay_consistent(event, replies.drop_last());
        lemma_next_consistent(replay(started(event), replies.drop_last()), replies.last());
    }
}

/// A finished run has made exactly as many rows as it counted, and every
/// one of them is sound.
pub proof fn lemma_finished_table(state: State)
    requires
        consistent(state),
        state.core.phase is Finished,
    ensures
        state.rows.len() == state.core.total,
        forall|i: int| 0 <= i < state.rows.len() ==> sound_row(state.core.event, #[trigger] state.rows[i]),
{
}

/// The event of a run never changes, and once the fragment count has been
/// taken, neither does the number of rows: it is decided by the event and
/// the answers to the one or two requests of the count alone.
pub proof fn lemma_count_is_fixed(state: State, reply: Reply)
    ensures
        next(state, reply).core.event == state.core.event,
        !(state.core.phase is MassPower) && !(state.core.phase is CountPower) ==> next(
            state,
            reply,
        ).core.total == state.core.total,
{
}

/// The number of requests that a run of an event makes for its count: two
/// for a collision, one for an explosion, none where there is no count to
/// take.
pub open spec fn count_requests(event: FragmentationEvent) -> nat {
    match initial(event).phase {
        Phase::MassPower => 2,
        Phase::CountPower => 1,
        _ => 0,
    }
}

/// Once the requests of the count are answered, the count is taken, and the
/// number of rows is the one that those answers gave: no later answer has a
/// say in it.
pub proof fn lemma_count_decided(event: FragmentationEvent, replies: Seq<Reply>)
    requires
        replies.len() >= count_requests(event),
    ensures
        !(replay(started(event), replies).core.phase is MassPower),
        !(replay(started(event), replies).core.phase is CountPower),
        replay(started(event), replies).core.total == replay(
            started(event),
            replies.take(count_requests(event) as int),
        ).core.total,
    decreases replies.len(),
{
    let start = started(event);
    let k = count_requests(event) as int;
    if replies.len() == k {
        assert(replies.take(k) =~= replies);
        if k >= 1 {
            let first = replies.take(1);
            assert(first.drop_last() =~= Seq::<Reply>::empty());
            assert(replay(start, first.drop_last()) == start);
            assert(replay(start, first) == next(start, first.last()));
            if k == 2 {
                assert(replies.drop_last() =~= first);
            }
        }
    } else {
        let before = replies.drop_last();
        lemma_count_decided(event, before);
        assert(before.take(k) =~= replies.take(k));
        lemma_count_is_fixed(replay(start, before), replies.last());
    }
}

/// Two runs of one event whose requests of the count are answered alike
/// make the same number of rows, whatever else they are answered.
pub proof fn lemma_same_count(event: FragmentationEvent, one: Seq<Reply>, other: Seq<Reply>)
    requires
        one.len() >= count_requests(event),
        other.len() >= count_requests(event),
        one.take(count_requests(event) as int) == other.take(count_requests(event) as int),
    ensures
        replay(started(event), one).core.total == replay(started(event), other).core.total,
{
    lemma_count_decided(event, one);
    lemma_count_decided(event, other);
}

/// A run that has ended stays as it is.
pub proof fn lemma_end_is_final(state: State, reply: Reply)
    requires
        ended(state.core.phase),
    ensures
        next(state, reply) == state,
{
}

/// A run asks for something exactly as long as it has not ended, and never
/// for a normal draw with a standard deviation that is not positive.
pub proof fn lemma_requests(state: State)
    requires
        consistent(state),
    ensures
        pending(state.core).is_none() <==> ended(state.core.phase),
        pending(state.core) matches Some(Request::Normal { mean, std_dev }) ==> std_dev > 0,
{
    lemma_deviations_positive(state.core.event.kind_of(), state.core.draft.lambda as int);
}

/// Without a usable answer to a request of the count, a run ends with an
/// empty table; without one to any later request, it fails.
pub proof fn lemma_undefined(state: State)
    requires
        !ended(state.core.phase),
    ensures
        state.core.phase is MassPower || state.core.phase is CountPower ==> next(
            state,
            Reply::Undefined,
        ).core.phase is Finished && next(state, Reply::Undefined).core.total == 0,
        !(state.core.phase is MassPower) && !(state.core.phase is CountPower) ==> next(
            state,
            Reply::Undefined,
        ).core.phase is Failed,
{
}

/// The place of a phase in the making of one fragment, counted from the end.
pub open spec fn rank(phase: Phase) -> int {
    match phase {
        Phase::LowerPower => 17,
        Phase::UpperPower => 16,
        Phase::Uniform => 15,
        Phase::Length => 14,
        Phase::AreaPower => 13,
        Phase::Lambda => 12,
        Phase::SmallDraw => 11,
        Phase::FirstDraw => 10,
        Phase::SecondDraw => 9,
        Phase::SmallValue => 8,
        Phase::LargeValue => 7,
        Phase::Chi => 6,
        Phase::Speed => 5,
        Phase::Direction => 4,
        _ => 0,
    }
}

/// A bound on the number of answers that a run still takes: sixteen for
/// each fragment to be made and two more, once the fragments are counted;
/// before that, more than any count allows.
pub open spec fn steps_left(core: Core) -> int {
    match core.phase {
        Phase::Finished => 0int,
        Phase::Failed(_) => 0int,
        Phase::MassPower => 0x10_0000_0000_0000_0000int + 20,
        Phase::CountPower => 0x10_0000_0000_0000_0000int + 19,
        phase => 16 * core.remaining + rank(phase),
    }
}

/// Every answer brings a run nearer to its end: a run ends after finitely
/// many answers, whatever they are.
pub proof fn lemma_progress(state: State, reply: Reply)
    requires
        consistent(state),
        !ended(state.core.phase),
    ensures
        0 <= steps_left(next(state, reply).core) < steps_left(state.core),
{
}

} // verus!
