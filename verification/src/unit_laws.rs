//! What holds of the units of every batch: which dataset they are computed on,
//! with which parameters, and what is reported of them.

use crate::backend::{BackendError, BackendKind};
use crate::batch::{
    alike, begin, begin_alone, homogeneous, shares_dataset, Act, BatchEvent, BatchState,
    Computation, JobParameters, StageState,
};
use crate::batch_laws::{
    a_homogeneous_batch_fetches_once, acts, batches_begin_valid, fetches, runs_stay_valid,
    state_after, states_stay_valid,
};
use crate::client::RequestError;
use crate::float_bits::Bits64;
use crate::protocol::{
    BoxPeriodPayload, BoxPeriodResult, FailureKind, LombPayload, LombResult, Report,
    WorkResultPayload, WorkUnit, LOMB_SCARGLE_V1,
};
use crate::retry::smaller;
use vstd::prelude::*;

verus! {

/// The unit whose dataset was asked for last.
pub open spec fn asked_for(start: (BatchState, Act), events: Seq<BatchEvent>) -> Option<WorkUnit>
    decreases events.len(),
{
    let end = state_after(start.0, events);
    if acts(start, events).last() is Fetch {
        Some(end.units[end.next])
    } else if events.len() == 0 {
        None
    } else {
        asked_for(start, events.drop_last())
    }
}

/// The unit whose dataset is at hand: the last one that was asked for and came,
/// unless another has been asked for since.
pub open spec fn at_hand(start: (BatchState, Act), events: Seq<BatchEvent>) -> Option<WorkUnit>
    decreases events.len(),
{
    if events.len() == 0 || acts(start, events).last() is Fetch {
        None
    } else {
        match events.last() {
            BatchEvent::Fetched { outcome: Ok(_), .. } => asked_for(start, events.drop_last()),
            _ => at_hand(start, events.drop_last()),
        }
    }
}

/// Two units name the same dataset of the same project.
pub open spec fn same_dataset(a: WorkUnit, b: WorkUnit) -> bool {
    a.project_id@ == b.project_id@ && a.dataset_id@ == b.dataset_id@
}

/// A batch begins at its first unit with no dataset, neither at hand nor asked
/// for.
pub open spec fn begins_empty_handed(start: (BatchState, Act)) -> bool {
    &&& start.0.wf()
    &&& start.0.next == 0
    &&& !start.0.shared
    &&& start.1 is StartClock || start.1 is Finish
    &&& start.0.stage is SharedClock || start.0.stage is Clock || start.0.stage is Finished
}

/// While a dataset is asked for, it is that of the current unit; and a shared
/// dataset is that of the first unit and at hand.
proof fn datasets_are_tracked(start: (BatchState, Act), events: Seq<BatchEvent>)
    requires
        begins_empty_handed(start),
    ensures
        ({
            let units = start.0.units;
            let end = state_after(start.0, events);
            &&& end.stage is Fetch || end.stage is SharedFetch ==> asked_for(start, events) == Some(
                units[end.next],
            )
            &&& end.shared ==> asked_for(start, events) == Some(units[0]) && at_hand(start, events)
                == Some(units[0])
            &&& acts(start, events).last() is Compute ==> (end.shared || at_hand(start, events)
                == Some(units[end.next]))
        }),
    decreases events.len(),
{
    if events.len() > 0 {
        let rest = events.drop_last();
        datasets_are_tracked(start, rest);
        runs_stay_valid(start.0, rest);
        states_stay_valid(state_after(start.0, rest), events.last());
        let before = state_after(start.0, rest);
        assert(acts(start, events).last() == before.step(events.last()).1);
    }
}

proof fn own_datasets_are_at_hand(start: (BatchState, Act), events: Seq<BatchEvent>)
    requires
        begins_empty_handed(start),
        acts(start, events).last() is Compute,
    ensures
        ({
            let end = state_after(start.0, events);
            &&& 0 <= end.next < start.0.units.len()
            &&& at_hand(start, events) is Some
            &&& same_dataset(at_hand(start, events)->Some_0, start.0.units[end.next])
        }),
{
    let units = start.0.units;
    runs_stay_valid(start.0, events);
    datasets_are_tracked(start, events);
    let end = state_after(start.0, events);
    if events.len() > 0 {
        let rest = events.drop_last();
        runs_stay_valid(start.0, rest);
        assert(acts(start, events).last() == state_after(start.0, rest).step(events.last()).1);
    }
    assert(!(end.stage is Finished));
    if end.shared {
        assert(homogeneous(units));
        assert(alike(units[end.next], units[0]));
    }
}

/// Whenever a unit is told to compute, the dataset at hand is its own: it came in
/// answer to the last request, and that request was for a unit of the same
/// project and the same dataset.
pub proof fn a_unit_computes_on_its_own_dataset(
    node_id: Seq<char>,
    units: Seq<WorkUnit>,
    max_backoff: u64,
    backend: BackendKind,
    events: Seq<BatchEvent>,
)
    requires
        acts(begin(node_id, units, max_backoff, backend), events).last() is Compute,
    ensures
        ({
            let start = begin(node_id, units, max_backoff, backend);
            let end = state_after(start.0, events);
            &&& 0 <= end.next < units.len()
            &&& at_hand(start, events) is Some
            &&& same_dataset(at_hand(start, events)->Some_0, units[end.next])
        }),
{
    batches_begin_valid(node_id, units, max_backoff, backend);
    own_datasets_are_at_hand(begin(node_id, units, max_backoff, backend), events);
}

/// The same holds of a unit that is taken on by itself: it computes only on a
/// dataset that was asked for on its behalf.
pub proof fn a_lone_unit_computes_on_its_own_dataset(
    node_id: Seq<char>,
    unit: WorkUnit,
    max_backoff: u64,
    backend: BackendKind,
    events: Seq<BatchEvent>,
)
    requires
        acts(begin_alone(node_id, unit, max_backoff, backend), events).last() is Compute,
    ensures
        ({
            let start = begin_alone(node_id, unit, max_backoff, backend);
            &&& start.0.units.len() == 1 && start.0.units[0] == unit
            &&& at_hand(start, events) is Some
            &&& same_dataset(at_hand(start, events)->Some_0, unit)
        }),
{
    let start = begin_alone(node_id, unit, max_backoff, backend);
    own_datasets_are_at_hand(start, events);
    runs_stay_valid(start.0, events);
}

/// Whatever happens, a batch keeps its node, its units, its ceiling and its
/// backend, and so does a unit that is taken on by itself. A batch of one unit
/// that shares no dataset begins as that unit does by itself.
pub proof fn batches_keep_what_they_begin_with(
    node_id: Seq<char>,
    units: Seq<WorkUnit>,
    unit: WorkUnit,
    max_backoff: u64,
    backend: BackendKind,
    events: Seq<BatchEvent>,
)
    ensures
        ({
            let end = state_after(begin(node_id, units, max_backoff, backend).0, events);
            &&& end.node_id == node_id
            &&& end.units == units
            &&& end.max_backoff == max_backoff
            &&& end.backend == backend
        }),
        ({
            let end = state_after(begin_alone(node_id, unit, max_backoff, backend).0, events);
            &&& end.node_id == node_id
            &&& end.units == seq![unit]
            &&& end.max_backoff == max_backoff
            &&& end.backend == backend
        }),
        units.len() == 1 && units[0] == unit && !shares_dataset(units) ==> begin(
            node_id,
            units,
            max_backoff,
            backend,
        ) == begin_alone(node_id, unit, max_backoff, backend),
{
    batches_begin_valid(node_id, units, max_backoff, backend);
    runs_stay_valid(begin(node_id, units, max_backoff, backend).0, events);
    runs_stay_valid(begin_alone(node_id, unit, max_backoff, backend).0, events);
    if units.len() == 1 && units[0] == unit {
        assert(units =~= seq![unit]);
    }
}

/// Units of one project, dataset and workload share one download: where the
/// first request succeeds, no other is made, whatever happens to the units.
pub proof fn like_units_share_one_download(
    node_id: Seq<char>,
    units: Seq<WorkUnit>,
    max_backoff: u64,
    backend: BackendKind,
    started: Bits64,
    fetched: Bits64,
    more: Seq<BatchEvent>,
)
    requires
        units.len() > 0,
        forall|i: int|
            0 <= i < units.len() ==> same_dataset(#[trigger] units[i], units[0])
                && units[i].workload_id@ == units[0].workload_id@,
        units[0].workload_id@ == "openstar.lomb-scargle.v1"@ || units[0].workload_id@
            == "openstar.box-period-search.v1"@,
    ensures
        ({
            let events = seq![
                BatchEvent::Clock { elapsed: started },
                BatchEvent::Fetched { outcome: Ok(()), elapsed: fetched },
            ];
            fetches(acts(begin(node_id, units, max_backoff, backend), events + more)) == 1
        }),
{
    assert forall|i: int| 0 <= i < units.len() implies alike(#[trigger] units[i], units[0]) by {
        assert(same_dataset(units[i], units[0]));
    }
    assert(shares_dataset(units));
    a_homogeneous_batch_fetches_once(
        node_id,
        units,
        max_backoff,
        backend,
        started,
        fetched,
        more,
    );
}

/// The dataset of the current unit is at hand with this event.
pub open spec fn dataset_comes(state: BatchState, event: BatchEvent) -> bool {
    ||| state.stage is Fetch && (event matches BatchEvent::Fetched { outcome: Ok(_), .. })
    ||| state.stage is Clock && state.shared && event is Clock
}

/// A unit computes what its workload names, with the parameters of its own
/// payload, as soon as its dataset is at hand.
pub proof fn a_unit_computes_with_its_own_parameters(
    state: BatchState,
    event: BatchEvent,
    lomb: LombPayload,
    box_period: BoxPeriodPayload,
)
    requires
        state.wf(),
        dataset_comes(state, event),
        state.units[state.next].payload is Some,
    ensures
        state.units[state.next].workload_id@ == "openstar.lomb-scargle.v1"@
            && state.units[state.next].payload->Some_0.lomb == Ok::<LombPayload, String>(lomb)
            ==> state.step(event).1 == Act::Compute(JobParameters::Lomb(lomb)),
        state.units[state.next].workload_id@ == "openstar.box-period-search.v1"@
            && state.units[state.next].payload->Some_0.box_period == Ok::<BoxPeriodPayload, String>(
            box_period,
        ) ==> state.step(event).1 == Act::Compute(JobParameters::BoxPeriod(box_period@)),
        state.step(event).0.next == state.next,
{
    reveal_strlit("openstar.lomb-scargle.v1");
    reveal_strlit("openstar.box-period-search.v1");
    assert("openstar.lomb-scargle.v1"@.len() != "openstar.box-period-search.v1"@.len());
}

/// Parameters that cannot be had are reported as invalid input, with the reason.
pub proof fn missing_parameters_are_reported(state: BatchState, event: BatchEvent)
    requires
        state.wf(),
        dataset_comes(state, event),
        state.units[state.next].workload_id@ == LOMB_SCARGLE_V1@,
        state.units[state.next].lomb_payload_spec() is Err,
    ensures
        state.step(event).1 matches Act::Encode(report) && tells_failure(
            report,
            state,
            FailureKind::InvalidInput,
            state.units[state.next].lomb_payload_spec()->Err_0,
            time_of(event),
        ),
{
}

/// The time that an event tells.
pub open spec fn time_of(event: BatchEvent) -> Bits64 {
    match event {
        BatchEvent::Clock { elapsed } => elapsed,
        BatchEvent::Fetched { elapsed, .. } => elapsed,
        BatchEvent::Computed { elapsed, .. } => elapsed,
        _ => Bits64 { bits: 0 },
    }
}

/// The report is about the current unit, from this node.
pub open spec fn is_about(report: Report, state: BatchState) -> bool {
    report.work_unit_id == state.units[state.next].id@ && report.node_id == state.node_id
}

/// The report tells a failure of the current unit, and no finding.
pub open spec fn tells_failure(
    report: Report,
    state: BatchState,
    kind: FailureKind,
    message: Seq<char>,
    elapsed: Bits64,
) -> bool {
    &&& is_about(report, state)
    &&& report.status is Failed
    &&& report.duration == elapsed
    &&& report.failure_kind == Some(kind)
    &&& report.error_message == Some(message)
    &&& report.payload is None
    &&& report.best_frequency is None
    &&& report.best_period_days is None
    &&& report.best_power is None
}

/// The report tells a success of the current unit.
pub open spec fn tells_success(report: Report, state: BatchState, elapsed: Bits64) -> bool {
    &&& is_about(report, state)
    &&& report.status is Completed
    &&& report.duration == elapsed
    &&& report.failure_kind is None
    &&& report.error_message is None
}

/// A finished Lomb-Scargle search is reported as it was found, in the payload and
/// beside it. Its computing time is the CPU's where the CPU computed, and nobody's
/// else.
pub proof fn a_finished_lomb_search_is_reported(
    state: BatchState,
    result: LombResult,
    seconds: Bits64,
    elapsed: Bits64,
)
    requires
        state.wf(),
        state.stage is Compute,
    ensures
        ({
            let event = BatchEvent::Computed {
                computation: Computation::Lomb(Ok(result)),
                seconds,
                elapsed,
            };
            &&& state.step(event).1 matches Act::Encode(report)
            &&& tells_success(report, state, elapsed)
            &&& report.best_frequency == Some(result.best_frequency)
            &&& report.best_period_days == Some(result.best_period_days)
            &&& report.best_power == Some(result.best_power)
            &&& report.payload matches Some(WorkResultPayload::Lomb(found))
            &&& found.best_frequency == result.best_frequency
            &&& found.best_period_days == result.best_period_days
            &&& found.best_power == result.best_power
            &&& found.best_frequency_index == result.best_frequency_index
            &&& found.total_workload_duration_seconds == elapsed
            &&& state.backend is Cpu ==> found.cpu_duration_seconds == Some(seconds)
            &&& state.backend is Vulkan ==> found.cpu_duration_seconds is None
        }),
{
    reveal_strlit("cpu");
    reveal_strlit("vulkan");
    assert("vulkan"@.len() != "cpu"@.len());
}

/// A finished box search is reported as it was found: reading the payload back
/// gives the result. Its computing time is the CPU's, whatever the backend.
pub proof fn a_finished_box_search_is_reported(
    state: BatchState,
    result: BoxPeriodResult,
    seconds: Bits64,
    elapsed: Bits64,
)
    requires
        state.wf(),
        state.stage is Compute,
    ensures
        ({
            let event = BatchEvent::Computed {
                computation: Computation::BoxPeriod(Ok(result)),
                seconds,
                elapsed,
            };
            &&& state.step(event).1 matches Act::Encode(report)
            &&& tells_success(report, state, elapsed)
            &&& report.best_frequency is None
            &&& report.best_period_days is None
            &&& report.best_power is None
            &&& report.payload matches Some(WorkResultPayload::BoxPeriod(found))
            &&& (BoxPeriodResult {
                best_frequency: found.best_frequency,
                best_score: found.best_score,
                best_phase: found.best_phase,
                best_duration_fraction: found.best_duration_fraction,
                best_frequency_index: found.best_frequency_index,
                best_duration_index: found.best_duration_index,
                best_phase_bin: found.best_phase_bin,
                in_box_samples: found.in_box_samples,
                out_of_box_samples: found.out_of_box_samples,
            }) == result
            &&& found.cpu_duration_seconds == seconds
            &&& found.total_workload_duration_seconds == elapsed
        }),
{
}

/// A computation that failed is reported with its own words: as the fault of the
/// input where the input was refused, and of the execution otherwise.
pub proof fn a_failed_computation_is_reported(
    state: BatchState,
    computation: Computation,
    seconds: Bits64,
    elapsed: Bits64,
)
    requires
        state.wf(),
        state.stage is Compute,
    ensures
        ({
            let act = state.step(BatchEvent::Computed { computation, seconds, elapsed }).1;
            match computation {
                Computation::Lomb(Err(BackendError::InvalidInput(error))) => {
                    &&& act matches Act::Encode(report)
                    &&& tells_failure(
                        report,
                        state,
                        FailureKind::InvalidInput,
                        error.message_spec(),
                        elapsed,
                    )
                },
                Computation::Lomb(Err(BackendError::Execution(reason))) => {
                    &&& act matches Act::Encode(report)
                    &&& tells_failure(report, state, FailureKind::Execution, reason@, elapsed)
                },
                Computation::BoxPeriod(Err(error)) => {
                    &&& act matches Act::Encode(report)
                    &&& tells_failure(
                        report,
                        state,
                        FailureKind::InvalidInput,
                        error.message_spec(),
                        elapsed,
                    )
                },
                Computation::Aborted(reason) => {
                    &&& act matches Act::Encode(report)
                    &&& tells_failure(report, state, FailureKind::Execution, reason@, elapsed)
                },
                _ => true,
            }
        }),
{
}

/// A unit is refused for its workload exactly where that is neither of the two
/// that can be performed; and then nothing else is done for it.
pub proof fn only_unknown_workloads_are_refused(state: BatchState, elapsed: Bits64)
    requires
        state.wf(),
        state.stage is Clock,
    ensures
        ({
            let workload = state.units[state.next].workload_id@;
            let (after, act) = state.step(BatchEvent::Clock { elapsed });
            &&& workload == "openstar.lomb-scargle.v1"@ || workload
                == "openstar.box-period-search.v1"@ ==> !(act matches Act::Encode(report)
                && report.failure_kind == Some(FailureKind::UnsupportedWorkload))
            &&& workload != "openstar.lomb-scargle.v1"@ && workload
                != "openstar.box-period-search.v1"@ ==> (act matches Act::Encode(report)
                && tells_failure(
                report,
                state,
                FailureKind::UnsupportedWorkload,
                "unsupported workload: "@ + workload,
                elapsed,
            ))
            &&& after.next == state.next
        }),
{
}

/// A dataset that cannot be had is reported as such only after it was asked for
/// on behalf of that very unit, and only where the failure lasts or five requests
/// failed. It is the fault of the input where the coordinator refused or answered
/// nonsense, and of the transport otherwise.
pub proof fn a_missing_dataset_is_reported(state: BatchState, error: RequestError, elapsed: Bits64)
    requires
        state.wf(),
        state.stage is Fetch,
    ensures
        ({
            let (after, act) = state.step(
                BatchEvent::Fetched { outcome: Err(error), elapsed },
            );
            let failed = state.stage->Fetch_0.attempt;
            let lasting = !error.transient_spec() || failed == 4;
            &&& !lasting ==> act is Wait && after.next == state.next && after.stage is FetchWait
                && after.stage->FetchWait_0.attempt == failed + 1
            &&& lasting && (error is Permanent || error is InvalidResponse) ==> (
            act matches Act::Encode(report) && tells_failure(
                report,
                state,
                FailureKind::InvalidInput,
                error.message_spec(),
                elapsed,
            ))
            &&& lasting && (error is Transport || error is Url) ==> (act matches Act::Encode(report)
                && tells_failure(
                report,
                state,
                FailureKind::TransportUnavailable,
                error.message_spec(),
                elapsed,
            ))
        }),
{
}

/// A report of a failing transport comes only of a request for the unit's own
/// dataset, and a shared download that fails is no report at all: every unit is
/// then taken on by itself.
pub proof fn a_failed_shared_download_is_nobodys_failure(state: BatchState, event: BatchEvent)
    requires
        state.wf(),
    ensures
        state.step(event).1 matches Act::Encode(report) ==> (report.failure_kind == Some(
            FailureKind::TransportUnavailable,
        ) ==> state.stage is Fetch || state.stage is Compute),
        state.stage is SharedFetch ==> (event matches BatchEvent::Fetched {
            outcome: Err(error),
            ..
        } ==> (!error.transient_spec() ==> state.step(event).0.stage is Clock && !state.step(
            event,
        ).0.shared && state.step(event).0.next == 0 && state.step(event).1 is StartClock)),
{
}

/// The first wait before a dataset is asked for again is 250 milliseconds, and
/// every further one is twice the one before, up to the maximum.
pub proof fn dataset_waits_double(
    state: BatchState,
    first: BatchEvent,
    second: BatchEvent,
)
    requires
        state.wf(),
        state.stage is Fetch || state.stage is SharedFetch,
        state.step(first).1 is Wait,
        state.step(first).0.step(BatchEvent::Waited).0.step(second).1 is Wait,
    ensures
        state.step(first).0.step(BatchEvent::Waited).1 is Fetch,
        state.step(first).0.step(BatchEvent::Waited).0.step(second).1->Wait_0 == smaller(
            2 * state.step(first).1->Wait_0,
            state.max_backoff as int,
        ),
{
}

/// A dataset that is asked for the first time is asked for again after 250
/// milliseconds, or the maximum where that is less.
pub proof fn the_first_dataset_wait(state: BatchState, begun: BatchEvent, failed: BatchEvent)
    requires
        state.wf(),
        state.stage is Clock || state.stage is SharedClock,
        state.step(begun).1 is Fetch,
        state.step(begun).0.step(failed).1 is Wait,
    ensures
        state.step(begun).0.step(failed).1->Wait_0 == smaller(250, state.max_backoff as int),
{
}

/// Every wait before a result is submitted again is twice the one before, up to
/// the maximum.
pub proof fn submission_waits_double(state: BatchState, first: BatchEvent, second: BatchEvent)
    requires
        state.wf(),
        state.stage is Submit,
        state.step(first).1 is Wait,
        state.step(first).0.step(BatchEvent::Waited).0.step(second).1 is Wait,
    ensures
        state.step(first).0.step(BatchEvent::Waited).1 is Submit,
        state.step(first).0.step(BatchEvent::Waited).0.step(second).1->Wait_0 == smaller(
            2 * state.step(first).1->Wait_0,
            state.max_backoff as int,
        ),
{
}

/// A result that was just written down is submitted as it was written, and again
/// after 500 milliseconds, or the maximum where that is less.
pub proof fn the_first_submission_wait(state: BatchState, body: Vec<u8>, failed: BatchEvent)
    requires
        state.wf(),
        state.stage is Encode,
        state.step(BatchEvent::Encoded { body }).0.step(failed).1 is Wait,
    ensures
        state.step(BatchEvent::Encoded { body }).1 is Submit,
        state.step(BatchEvent::Encoded { body }).0.stage matches StageState::Submit {
            body: kept,
            ..
        } && kept == body@,
        state.step(BatchEvent::Encoded { body }).0.step(failed).1->Wait_0 == smaller(
            500,
            state.max_backoff as int,
        ),
{
}

/// A submission that fails for now is repeated, however often it has failed.
pub proof fn passing_failures_are_repeated(state: BatchState, error: RequestError)
    requires
        state.wf(),
        state.stage is Submit,
        error.transient_spec(),
    ensures
        state.step(BatchEvent::Submitted { reply: Err(error) }).1 is Wait,
        state.step(BatchEvent::Submitted { reply: Err(error) }).0.next == state.next,
{
}

} // verus!
