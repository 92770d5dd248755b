//! What holds of every run of a batch, whatever happens to it.

use crate::backend::BackendKind;
use crate::batch::{begin, shares_dataset, supported, Act, BatchEvent, BatchState, StageState};
use crate::float_bits::Bits64;
use crate::protocol::{failed_report, FailureKind, Report, WorkUnit};
use crate::retry::FETCH_ATTEMPTS;
use vstd::prelude::*;

verus! {

/// The state after a series of events.
pub open spec fn state_after(start: BatchState, events: Seq<BatchEvent>) -> BatchState
    decreases events.len(),
{
    if events.len() == 0 {
        start
    } else {
        state_after(start, events.drop_last()).step(events.last()).0
    }
}

/// All that is asked for in the course of a series of events.
pub open spec fn acts(start: (BatchState, Act), events: Seq<BatchEvent>) -> Seq<Act>
    decreases events.len(),
{
    if events.len() == 0 {
        seq![start.1]
    } else {
        acts(start, events.drop_last()).push(
            state_after(start.0, events.drop_last()).step(events.last()).1,
        )
    }
}

/// The reports among what is asked for, in order.
pub open spec fn reports(acts: Seq<Act>) -> Seq<Report>
    decreases acts.len(),
{
    if acts.len() == 0 {
        Seq::empty()
    } else {
        match acts.last() {
            Act::Encode(report) => reports(acts.drop_last()).push(report),
            _ => reports(acts.drop_last()),
        }
    }
}

/// How many dataset requests are asked for.
pub open spec fn fetches(acts: Seq<Act>) -> nat
    decreases acts.len(),
{
    if acts.len() == 0 {
        0
    } else {
        fetches(acts.drop_last()) + if acts.last() is Fetch {
            1nat
        } else {
            0nat
        }
    }
}

/// How many units are timed by a clock that was already running.
pub open spec fn inherited_clocks(acts: Seq<Act>) -> nat
    decreases acts.len(),
{
    if acts.len() == 0 {
        0
    } else {
        inherited_clocks(acts.drop_last()) + if acts.last() is ReadClock {
            1nat
        } else {
            0nat
        }
    }
}

/// A report of the current unit has been asked for.
pub open spec fn reporting(state: BatchState) -> bool {
    state.stage is Encode || state.stage is Submit || state.stage is SubmitWait
}

/// The bytes that are being submitted.
pub open spec fn submitting(state: BatchState, body: Seq<u8>) -> bool {
    match state.stage {
        StageState::Submit { body: b, .. } | StageState::SubmitWait { body: b, .. } => b == body,
        _ => false,
    }
}

proof fn one_act(act: Act)
    ensures
        fetches(seq![act]) == if act is Fetch {
            1nat
        } else {
            0nat
        },
        inherited_clocks(seq![act]) == if act is ReadClock {
            1nat
        } else {
            0nat
        },
        !(act is Encode) ==> reports(seq![act]) == Seq::<Report>::empty(),
{
    let one = seq![act];
    assert(one.drop_last() =~= Seq::<Act>::empty());
    assert(one.last() == act);
    reveal_with_fuel(fetches, 2);
    reveal_with_fuel(inherited_clocks, 2);
    reveal_with_fuel(reports, 2);
}

proof fn another_act(acts: Seq<Act>, act: Act)
    ensures
        fetches(acts.push(act)) == fetches(acts) + if act is Fetch {
            1nat
        } else {
            0nat
        },
        inherited_clocks(acts.push(act)) == inherited_clocks(acts) + if act is ReadClock {
            1nat
        } else {
            0nat
        },
        reports(acts.push(act)) == match act {
            Act::Encode(report) => reports(acts).push(report),
            _ => reports(acts),
        },
{
    assert(acts.push(act).drop_last() =~= acts);
    assert(acts.push(act).last() == act);
}

/// A batch begins in a valid state.
pub proof fn batches_begin_valid(
    node_id: Seq<char>,
    units: Seq<WorkUnit>,
    max_backoff: u64,
    backend: BackendKind,
)
    ensures
        begin(node_id, units, max_backoff, backend).0.wf(),
{
}

/// Every event leads from a valid state to a valid state, and leaves the units,
/// the node, the backend and the ceiling as they are. Units are never gone back
/// to.
pub proof fn states_stay_valid(state: BatchState, event: BatchEvent)
    requires
        state.wf(),
    ensures
        state.step(event).0.wf(),
        state.step(event).0.units == state.units,
        state.step(event).0.node_id == state.node_id,
        state.step(event).0.backend == state.backend,
        state.step(event).0.max_backoff == state.max_backoff,
        state.next <= state.step(event).0.next <= state.next + 1,
{
}

/// What holds of a step holds along a whole series of events.
pub proof fn runs_stay_valid(start: BatchState, events: Seq<BatchEvent>)
    requires
        start.wf(),
    ensures
        state_after(start, events).wf(),
        state_after(start, events).units == start.units,
        state_after(start, events).node_id == start.node_id,
        state_after(start, events).backend == start.backend,
        state_after(start, events).max_backoff == start.max_backoff,
        start.next <= state_after(start, events).next,
    decreases events.len(),
{
    if events.len() > 0 {
        runs_stay_valid(start, events.drop_last());
        states_stay_valid(state_after(start, events.drop_last()), events.last());
    }
}

/// At every moment each unit that is done, and the current one if it is being
/// submitted, has been reported exactly once, in the order of the batch, and
/// nothing else has. A finished batch has reported all its units.
pub proof fn each_unit_is_reported_once_and_in_order(
    node_id: Seq<char>,
    units: Seq<WorkUnit>,
    max_backoff: u64,
    backend: BackendKind,
    events: Seq<BatchEvent>,
)
    ensures
        ({
            let start = begin(node_id, units, max_backoff, backend);
            let end = state_after(start.0, events);
            let reported = reports(acts(start, events));
            &&& reported.len() == end.next + if reporting(end) {
                1int
            } else {
                0int
            }
            &&& reported.len() <= units.len()
            &&& end.stage is Finished ==> reported.len() == units.len()
            &&& forall|k: int|
                0 <= k < reported.len() ==> (#[trigger] reported[k]).work_unit_id == units[k].id@
                    && reported[k].node_id == node_id
        }),
    decreases events.len(),
{
    let start = begin(node_id, units, max_backoff, backend);
    batches_begin_valid(node_id, units, max_backoff, backend);
    if events.len() == 0 {
        one_act(start.1);
    } else {
        let before = state_after(start.0, events.drop_last());
        each_unit_is_reported_once_and_in_order(
            node_id,
            units,
            max_backoff,
            backend,
            events.drop_last(),
        );
        runs_stay_valid(start.0, events.drop_last());
        states_stay_valid(before, events.last());
        another_act(acts(start, events.drop_last()), before.step(events.last()).1);
    }
}

/// Once a batch has its shared dataset, no dataset is asked for again.
pub proof fn a_shared_dataset_is_kept(
    start: (BatchState, Act),
    events: Seq<BatchEvent>,
    more: Seq<BatchEvent>,
)
    requires
        start.0.wf(),
        state_after(start.0, events).shared,
    ensures
        state_after(start.0, events + more).shared,
        fetches(acts(start, events + more)) == fetches(acts(start, events)),
    decreases more.len(),
{
    if more.len() == 0 {
        assert(events + more =~= events);
    } else {
        let all = events + more;
        assert(all.drop_last() =~= events + more.drop_last());
        a_shared_dataset_is_kept(start, events, more.drop_last());
        runs_stay_valid(start.0, all.drop_last());
        let before = state_after(start.0, all.drop_last());
        another_act(acts(start, all.drop_last()), before.step(all.last()).1);
    }
}

/// A batch of like units whose first dataset request succeeds asks for no other
/// dataset.
pub proof fn a_homogeneous_batch_fetches_once(
    node_id: Seq<char>,
    units: Seq<WorkUnit>,
    max_backoff: u64,
    backend: BackendKind,
    started: Bits64,
    fetched: Bits64,
    more: Seq<BatchEvent>,
)
    requires
        shares_dataset(units),
    ensures
        ({
            let start = begin(node_id, units, max_backoff, backend);
            let events = seq![
                BatchEvent::Clock { elapsed: started },
                BatchEvent::Fetched { outcome: Ok(()), elapsed: fetched },
            ];
            fetches(acts(start, events + more)) == 1
        }),
{
    let start = begin(node_id, units, max_backoff, backend);
    let first = seq![BatchEvent::Clock { elapsed: started }];
    let events = seq![
        BatchEvent::Clock { elapsed: started },
        BatchEvent::Fetched { outcome: Ok(()), elapsed: fetched },
    ];
    batches_begin_valid(node_id, units, max_backoff, backend);
    assert(first.drop_last() =~= Seq::<BatchEvent>::empty());
    assert(events.drop_last() =~= first);
    reveal_with_fuel(state_after, 3);
    reveal_with_fuel(acts, 3);
    one_act(start.1);
    another_act(acts(start, Seq::<BatchEvent>::empty()), Act::Fetch);
    another_act(acts(start, first), Act::ReadClock);
    a_shared_dataset_is_kept(start, events, more);
}

/// How many dataset requests a state can follow on.
spec fn fetch_allowance(state: BatchState) -> int {
    let spent = if shares_dataset(state.units) {
        FETCH_ATTEMPTS as int
    } else {
        0
    };
    match state.stage {
        StageState::SharedClock => 0,
        StageState::SharedFetch(retry) => retry.attempt + 1,
        StageState::SharedFetchWait(retry) => retry.attempt as int,
        StageState::Clock => spent + if state.shared {
            0
        } else {
            FETCH_ATTEMPTS * state.next
        },
        StageState::Fetch(retry) => spent + FETCH_ATTEMPTS * state.next + retry.attempt + 1,
        StageState::FetchWait(retry) => spent + FETCH_ATTEMPTS * state.next + retry.attempt,
        StageState::Finished => spent + if state.shared {
            0
        } else {
            FETCH_ATTEMPTS * state.next
        },
        _ => spent + if state.shared {
            0
        } else {
            FETCH_ATTEMPTS * (state.next + 1)
        },
    }
}

/// A dataset is asked for at most five times for the batch as a whole, where
/// the units share it, and five times for each unit on its own.
pub proof fn dataset_requests_are_bounded(
    node_id: Seq<char>,
    units: Seq<WorkUnit>,
    max_backoff: u64,
    backend: BackendKind,
    events: Seq<BatchEvent>,
)
    ensures
        ({
            let start = begin(node_id, units, max_backoff, backend);
            let end = state_after(start.0, events);
            let asked = fetches(acts(start, events));
            &&& asked <= FETCH_ATTEMPTS * (units.len() + 1)
            &&& !shares_dataset(units) ==> asked <= FETCH_ATTEMPTS * units.len()
            &&& end.shared ==> asked <= FETCH_ATTEMPTS
        }),
{
    let start = begin(node_id, units, max_backoff, backend);
    batches_begin_valid(node_id, units, max_backoff, backend);
    runs_stay_valid(start.0, events);
    dataset_requests_stay_within_allowance(node_id, units, max_backoff, backend, events);
}

/// A step that asks for a dataset raises the allowance, and none lowers it.
proof fn a_step_stays_within_allowance(state: BatchState, event: BatchEvent)
    requires
        state.wf(),
    ensures
        fetch_allowance(state.step(event).0) >= fetch_allowance(state) + if state.step(
            event,
        ).1 is Fetch {
            1int
        } else {
            0int
        },
{
}

proof fn dataset_requests_stay_within_allowance(
    node_id: Seq<char>,
    units: Seq<WorkUnit>,
    max_backoff: u64,
    backend: BackendKind,
    events: Seq<BatchEvent>,
)
    ensures
        ({
            let start = begin(node_id, units, max_backoff, backend);
            fetches(acts(start, events)) <= fetch_allowance(state_after(start.0, events))
        }),
    decreases events.len(),
{
    let start = begin(node_id, units, max_backoff, backend);
    batches_begin_valid(node_id, units, max_backoff, backend);
    if events.len() == 0 {
        one_act(start.1);
    } else {
        let before = state_after(start.0, events.drop_last());
        dataset_requests_stay_within_allowance(
            node_id,
            units,
            max_backoff,
            backend,
            events.drop_last(),
        );
        runs_stay_valid(start.0, events.drop_last());
        a_step_stays_within_allowance(before, events.last());
        another_act(acts(start, events.drop_last()), before.step(events.last()).1);
    }
}

/// A result that is submitted again is submitted with the same bytes: until
/// the run leaves the unit, it submits what was written down for it.
pub proof fn submissions_repeat_the_same_bytes(
    start: BatchState,
    body: Seq<u8>,
    events: Seq<BatchEvent>,
)
    requires
        start.wf(),
        submitting(start, body),
    ensures
        ({
            let end = state_after(start, events);
            end.next > start.next || (end.next == start.next && submitting(end, body))
        }),
    decreases events.len(),
{
    if events.len() > 0 {
        submissions_repeat_the_same_bytes(start, body, events.drop_last());
        runs_stay_valid(start, events.drop_last());
        states_stay_valid(state_after(start, events.drop_last()), events.last());
    }
}

/// A submission that is refused for good is not repeated: the run turns to the
/// next unit.
pub proof fn a_refused_submission_ends_the_unit(
    state: BatchState,
    event: BatchEvent,
)
    requires
        state.wf(),
        state.stage is Submit,
        event matches BatchEvent::Submitted { reply } && (reply is Err
            ==> !reply->Err_0.transient_spec()),
    ensures
        state.step(event).0.next == state.next + 1,
        state.step(event).1 is StartClock || state.step(event).1 is Finish,
{
}

/// A unit with an unknown workload is reported as such at once, and no dataset
/// is ever asked for on its behalf.
pub proof fn unsupported_units_are_reported_without_a_fetch(state: BatchState, event: BatchEvent)
    requires
        state.wf(),
    ensures
        state.step(event).1 is Fetch ==> supported(
            state.units[state.step(event).0.next].workload_id@,
        ),
        state.stage is Clock && !supported(state.units[state.next].workload_id@) ==> (
        event matches BatchEvent::Clock { elapsed } ==> state.step(event).1 == Act::Encode(
            failed_report(
                state.units[state.next].id@,
                state.node_id,
                elapsed,
                FailureKind::UnsupportedWorkload,
                "unsupported workload: "@ + state.units[state.next].workload_id@,
            ),
        )),
{
}

/// The time of the shared download is charged to exactly one unit, the first:
/// every other unit starts the clock anew.
pub proof fn a_shared_download_is_charged_once(
    node_id: Seq<char>,
    units: Seq<WorkUnit>,
    max_backoff: u64,
    backend: BackendKind,
    events: Seq<BatchEvent>,
)
    ensures
        ({
            let start = begin(node_id, units, max_backoff, backend);
            inherited_clocks(acts(start, events)) == if state_after(start.0, events).shared {
                1nat
            } else {
                0nat
            }
        }),
        forall|state: BatchState, event: BatchEvent|
            state.wf() && (#[trigger] state.step(event)).1 is ReadClock ==> state.step(event).0.next
                == 0 && state.step(event).0.shared && !state.shared,
    decreases events.len(),
{
    let start = begin(node_id, units, max_backoff, backend);
    batches_begin_valid(node_id, units, max_backoff, backend);
    if events.len() == 0 {
        one_act(start.1);
    } else {
        let before = state_after(start.0, events.drop_last());
        a_shared_download_is_charged_once(
            node_id,
            units,
            max_backoff,
            backend,
            events.drop_last(),
        );
        runs_stay_valid(start.0, events.drop_last());
        another_act(acts(start, events.drop_last()), before.step(events.last()).1);
    }
}

/// The configured maximum is the ceiling of every wait before a request is
/// repeated.
pub proof fn waits_are_bounded(state: BatchState, event: BatchEvent)
    ensures
        state.step(event).1 matches Act::Wait(ms) ==> ms <= state.max_backoff,
{
}

/// A unit is left only on a final reply to its submission: a receipt, or a
/// refusal that no repetition would change.
pub proof fn a_unit_is_left_on_a_final_reply_only(state: BatchState, event: BatchEvent)
    requires
        state.wf(),
        state.step(event).0.next != state.next,
    ensures
        state.stage is Submit,
        event matches BatchEvent::Submitted { reply } && (reply is Ok
            || !reply->Err_0.transient_spec()),
{
}

/// The event is a final reply to a submission that is awaited.
pub open spec fn answers_for_good(state: BatchState, event: BatchEvent) -> bool {
    state.stage is Submit && (event matches BatchEvent::Submitted { reply } && (reply is Ok
        || !reply->Err_0.transient_spec()))
}

/// How many submissions were answered for good in the course of a series of
/// events.
pub open spec fn answered(start: BatchState, events: Seq<BatchEvent>) -> nat
    decreases events.len(),
{
    if events.len() == 0 {
        0
    } else {
        answered(start, events.drop_last()) + if answers_for_good(
            state_after(start, events.drop_last()),
            events.last(),
        ) {
            1nat
        } else {
            0nat
        }
    }
}

/// At every moment each unit that is done has had exactly one final reply to its
/// submission, and no other unit has had one.
pub proof fn each_unit_has_one_final_reply(
    node_id: Seq<char>,
    units: Seq<WorkUnit>,
    max_backoff: u64,
    backend: BackendKind,
    events: Seq<BatchEvent>,
)
    ensures
        ({
            let start = begin(node_id, units, max_backoff, backend).0;
            let end = state_after(start, events);
            &&& answered(start, events) == end.next
            &&& end.stage is Finished <==> answered(start, events) == units.len()
        }),
    decreases events.len(),
{
    let start = begin(node_id, units, max_backoff, backend).0;
    batches_begin_valid(node_id, units, max_backoff, backend);
    runs_stay_valid(start, events);
    if events.len() > 0 {
        each_unit_has_one_final_reply(node_id, units, max_backoff, backend, events.drop_last());
        runs_stay_valid(start, events.drop_last());
        let before = state_after(start, events.drop_last());
        if before.step(events.last()).0.next != before.next {
            a_unit_is_left_on_a_final_reply_only(before, events.last());
        }
    }
}

/// An upper bound on the events that bring a batch to its end, leaving out
/// submissions that fail and are repeated.
pub open spec fn distance_to_end(state: BatchState) -> int {
    20 * (state.units.len() - state.next) + match state.stage {
        StageState::SharedClock => 33,
        StageState::SharedFetch(retry) => 20 + 2 * (FETCH_ATTEMPTS - retry.attempt),
        StageState::SharedFetchWait(retry) => 21 + 2 * (FETCH_ATTEMPTS - retry.attempt),
        StageState::Clock => 15,
        StageState::Fetch(retry) => 4 + 2 * (FETCH_ATTEMPTS - retry.attempt),
        StageState::FetchWait(retry) => 5 + 2 * (FETCH_ATTEMPTS - retry.attempt),
        StageState::Compute => 3,
        StageState::Encode => 2,
        StageState::Submit { .. } => 1,
        StageState::SubmitWait { .. } => 2,
        StageState::Finished => 0,
    }
}

/// Every event that is awaited brings the batch closer to its end, unless it is
/// a submission that fails and is repeated. So a batch whose submissions are
/// answered for good comes to its end.
pub proof fn awaited_events_bring_the_end_closer(state: BatchState, event: BatchEvent)
    requires
        state.wf(),
        !(state.step(event).1 is Idle),
        !(state.step(event).0.stage is SubmitWait),
    ensures
        0 <= distance_to_end(state.step(event).0) < distance_to_end(state),
        distance_to_end(state) == 0 <==> state.stage is Finished,
{
}

} // verus!
