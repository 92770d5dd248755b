//! What holds of every run of the worker, whatever happens to it.

use crate::backend::BackendKind;
use crate::batch::{begin, BatchEvent};
use crate::batch_laws::{
    acts, answered, each_unit_has_one_final_reply, each_unit_is_reported_once_and_in_order,
    reports, state_after,
};
use crate::config::Config;
use crate::protocol::{RegistrationReceipt, WorkUnit};
use crate::retry::smaller;
use crate::worker::{first_run, Claim, NextAct, RunAct, RunEvent, RunState};
use vstd::prelude::*;

verus! {

/// The state after a series of events, each with the random number drawn on it.
pub open spec fn run_after(start: RunState, events: Seq<(RunEvent, u64)>) -> RunState
    decreases events.len(),
{
    if events.len() == 0 {
        start
    } else {
        run_after(start, events.drop_last()).step(events.last().0, events.last().1).0
    }
}

/// How many batches were taken on in the course of a series of events.
pub open spec fn launched(start: RunState, events: Seq<(RunEvent, u64)>) -> nat
    decreases events.len(),
{
    if events.len() == 0 {
        0
    } else {
        let (event, jitter) = events.last();
        launched(start, events.drop_last()) + if run_after(start, events.drop_last()).step(
            event,
            jitter,
        ).1.launch is Some {
            1nat
        } else {
            0nat
        }
    }
}

/// How many of the batches taken on were done in the course of a series of
/// events.
pub open spec fn finished(start: RunState, events: Seq<(RunEvent, u64)>) -> nat
    decreases events.len(),
{
    if events.len() == 0 {
        0
    } else {
        finished(start, events.drop_last()) + if events.last().0 is BatchDone && run_after(
            start,
            events.drop_last(),
        ).running() > 0 {
            1nat
        } else {
            0nat
        }
    }
}

/// The worker claims no more work.
pub open spec fn winding_down(run: RunState) -> bool {
    run.phase is Draining || run.phase is Done
}

/// Work is asked for.
pub open spec fn claims(next: NextAct) -> bool {
    next is ClaimOne || next is ClaimBatch
}

/// A run begins in a valid state.
pub proof fn runs_begin_valid(config: Config)
    requires
        config.fault() is None,
    ensures
        first_run(config).wf(),
{
}

/// Every event leads from a valid state to a valid state and leaves the
/// settings as they are.
pub proof fn runs_stay_valid(run: RunState, event: RunEvent, jitter: u64)
    requires
        run.wf(),
    ensures
        run.step(event, jitter).0.wf(),
        run.step(event, jitter).0.concurrency == run.concurrency,
        run.step(event, jitter).0.batch_size == run.batch_size,
        run.step(event, jitter).0.poll_interval == run.poll_interval,
        run.step(event, jitter).0.max_backoff == run.max_backoff,
{
}

/// What holds of a step holds along a whole series of events.
proof fn runs_stay_valid_throughout(start: RunState, events: Seq<(RunEvent, u64)>)
    requires
        start.wf(),
    ensures
        run_after(start, events).wf(),
        run_after(start, events).concurrency == start.concurrency,
    decreases events.len(),
{
    if events.len() > 0 {
        runs_stay_valid_throughout(start, events.drop_last());
        runs_stay_valid(
            run_after(start, events.drop_last()),
            events.last().0,
            events.last().1,
        );
    }
}

/// At every moment the batches that were taken on and are not done are no more
/// than the configured concurrency allows. A worker that leaves of its own
/// accord has seen all of them done.
pub proof fn batches_are_limited_and_drained(config: Config, events: Seq<(RunEvent, u64)>)
    requires
        config.fault() is None,
    ensures
        ({
            let start = first_run(config);
            let end = run_after(start, events);
            let active = launched(start, events) - finished(start, events);
            &&& 0 <= active <= config.work_concurrency
            &&& end.running() == active
            &&& end.phase is Done ==> active == 0
        }),
    decreases events.len(),
{
    let start = first_run(config);
    runs_begin_valid(config);
    runs_stay_valid_throughout(start, events);
    if events.len() > 0 {
        runs_stay_valid_throughout(start, events.drop_last());
        batches_are_limited_and_drained(config, events.drop_last());
    }
}

/// A worker that is told to stop while it waits for a permit, or that finds
/// itself told so before its next claim, claims no more work.
pub proof fn a_stop_is_obeyed(run: RunState, event: RunEvent, jitter: u64)
    requires
        run.wf(),
    ensures
        run.phase is AwaitingPermit && event is StopChanged ==> winding_down(
            run.step(event, jitter).0,
        ),
        run.phase is Pausing ==> (event matches RunEvent::Woke { stopping } ==> (stopping
            ==> winding_down(run.step(event, jitter).0))),
        run.launches(event) is Some ==> (event matches RunEvent::Claimed { stopping, .. } ==> (stopping
            ==> winding_down(run.step(event, jitter).0))),
        run.phase is Registering ==> (event matches RunEvent::Registered {
            outcome: Ok(receipt),
            stopping,
        } ==> (stopping && receipt.accepted ==> winding_down(run.step(event, jitter).0))),
{
}

/// Once a worker claims no more work, that does not change, and no batch is
/// taken on.
pub proof fn winding_down_is_final(run: RunState, event: RunEvent, jitter: u64)
    requires
        run.wf(),
        winding_down(run),
    ensures
        winding_down(run.step(event, jitter).0),
        !claims(run.step(event, jitter).1.next),
        run.step(event, jitter).1.launch is None,
{
}

/// A worker that winds down leaves when the last batch is done.
pub proof fn the_last_batch_ends_the_run(run: RunState, jitter: u64)
    requires
        run.wf(),
        run.phase is Draining,
    ensures
        run.running() >= 1,
        run.running() == 1 ==> run.step(RunEvent::BatchDone, jitter).1.next is Exit,
        run.running() > 1 ==> run.step(RunEvent::BatchDone, jitter).0.running() == run.running()
            - 1,
{
}

/// Work is claimed only under a permit, and only as much as configured.
pub proof fn claims_hold_a_permit(run: RunState, event: RunEvent, jitter: u64)
    requires
        run.wf(),
        claims(run.step(event, jitter).1.next),
    ensures
        run.running() < run.concurrency,
        run.step(event, jitter).0.held == run.held + 1,
        run.step(event, jitter).1.next matches NextAct::ClaimBatch(size) ==> size
            == run.batch_size && size > 1,
        run.step(event, jitter).1.next is ClaimOne ==> run.batch_size == 1,
{
}

/// A claim that fails is followed by a pause of the current delay and at most a
/// quarter more, never beyond the configured maximum, and doubles the delay up
/// to that maximum. A claim that brings work sets the delay back.
pub proof fn failed_claims_back_off(run: RunState, stopping: bool, claim: Claim, jitter: u64)
    requires
        run.wf(),
        run.phase is Claiming,
        claim.answers(run.batch_size),
        jitter <= run.backoff / 4,
    ensures
        claim is Failed ==> ({
            let (after, act) = run.step(RunEvent::Claimed { claim, stopping }, jitter);
            &&& act.next matches NextAct::Pause(ms)
            &&& ms <= run.max_backoff
            &&& smaller(run.backoff as int, run.max_backoff as int) <= ms <= run.backoff
                + run.backoff / 4
            &&& after.backoff == smaller(2 * run.backoff, run.max_backoff as int)
            &&& after.phase is Pausing
        }),
        claim.brought().len() > 0 ==> run.step(
            RunEvent::Claimed { claim, stopping },
            jitter,
        ).0.backoff == run.poll_interval,
{
}

/// Every batch that a claim brings is taken on as it came, and no other batch is.
pub proof fn claimed_batches_are_taken_on(run: RunState, event: RunEvent, jitter: u64)
    requires
        run.wf(),
    ensures
        run.step(event, jitter).1.launch matches Some(batch) ==> run.phase is Claiming && (
        event matches RunEvent::Claimed { claim, .. } && claim.answers(run.batch_size) && batch
            == claim.brought() && batch.len() > 0),
        run.phase is Claiming ==> (event matches RunEvent::Claimed { claim, .. } ==> (
        claim.answers(run.batch_size) && claim.brought().len() > 0 ==> run.step(
            event,
            jitter,
        ).1.launch == Some(claim.brought()))),
{
}

/// The event tells of the signal to stop.
pub open spec fn tells_to_stop(event: RunEvent) -> bool {
    match event {
        RunEvent::StopChanged => true,
        RunEvent::Registered { stopping, .. } => stopping,
        RunEvent::Claimed { stopping, .. } => stopping,
        RunEvent::Woke { stopping } => stopping,
        _ => false,
    }
}

/// Somewhere along the series the worker was told to stop.
pub open spec fn told_to_stop(events: Seq<(RunEvent, u64)>) -> bool {
    exists|i: int| 0 <= i < events.len() && tells_to_stop((#[trigger] events[i]).0)
}

/// A run that claims no more work was told to stop. In particular, a run that
/// leaves of its own accord was.
pub proof fn a_run_leaves_only_when_told_to(config: Config, events: Seq<(RunEvent, u64)>)
    requires
        config.fault() is None,
    ensures
        winding_down(run_after(first_run(config), events)) ==> told_to_stop(events),
    decreases events.len(),
{
    if events.len() > 0 {
        let rest = events.drop_last();
        a_run_leaves_only_when_told_to(config, rest);
        if winding_down(run_after(first_run(config), events)) {
            if winding_down(run_after(first_run(config), rest)) {
                let i = choose|i: int|
                    0 <= i < rest.len() && tells_to_stop((#[trigger] rest[i]).0);
                assert(tells_to_stop(events[i].0));
            } else {
                assert(tells_to_stop(events[events.len() - 1].0));
            }
        }
    }
}

/// Wherever an event tells whether the worker is to stop, it says so.
pub open spec fn stopped_throughout(events: Seq<(RunEvent, u64)>) -> bool {
    forall|i: int|
        0 <= i < events.len() ==> match (#[trigger] events[i]).0 {
            RunEvent::Registered { stopping, .. } => stopping,
            RunEvent::Claimed { stopping, .. } => stopping,
            RunEvent::Woke { stopping } => stopping,
            _ => true,
        }
}

/// How often work is asked for in the course of a series of events.
pub open spec fn claim_count(start: RunState, events: Seq<(RunEvent, u64)>) -> nat
    decreases events.len(),
{
    if events.len() == 0 {
        0
    } else {
        let (event, jitter) = events.last();
        claim_count(start, events.drop_last()) + if claims(
            run_after(start, events.drop_last()).step(event, jitter).1.next,
        ) {
            1nat
        } else {
            0nat
        }
    }
}

/// A worker that was told to stop before it began claims nothing, and leaves as
/// soon as its registration is accepted.
pub proof fn an_early_stop_claims_nothing(config: Config, events: Seq<(RunEvent, u64)>)
    requires
        config.fault() is None,
        stopped_throughout(events),
    ensures
        claim_count(first_run(config), events) == 0,
        launched(first_run(config), events) == 0,
        ({
            let end = run_after(first_run(config), events);
            &&& end.phase is Registering || end.phase is Done || end.phase is Failed
            &&& end.phase is Registering ==> forall|event: RunEvent, jitter: u64|
                event matches RunEvent::Registered { outcome: Ok(receipt), stopping } ==> (
                receipt.accepted && stopping ==> (#[trigger] end.step(event, jitter)).1.next is Exit)
        }),
    decreases events.len(),
{
    runs_begin_valid(config);
    runs_stay_valid_throughout(first_run(config), events);
    if events.len() > 0 {
        let rest = events.drop_last();
        assert forall|i: int| 0 <= i < rest.len() implies match (#[trigger] rest[i]).0 {
            RunEvent::Registered { stopping, .. } => stopping,
            RunEvent::Claimed { stopping, .. } => stopping,
            RunEvent::Woke { stopping } => stopping,
            _ => true,
        } by {
            assert(events[i] == rest[i]);
        }
        an_early_stop_claims_nothing(config, rest);
        runs_stay_valid_throughout(first_run(config), rest);
        let last = events[events.len() - 1];
        assert(last == events.last());
    }
}

/// The registration is accepted and the signal to stop stays connected.
pub open spec fn undisturbed(events: Seq<(RunEvent, u64)>) -> bool {
    forall|i: int|
        0 <= i < events.len() ==> match (#[trigger] events[i]).0 {
            RunEvent::Registered { outcome, .. } => outcome matches Ok(receipt)
                && receipt.accepted,
            RunEvent::StopLost(_) => false,
            _ => true,
        }
}

/// Where the registration is accepted and the signal to stop stays connected, a
/// run never fails, whatever becomes of its claims.
pub proof fn failed_claims_never_end_a_run(config: Config, events: Seq<(RunEvent, u64)>)
    requires
        config.fault() is None,
        undisturbed(events),
    ensures
        !(run_after(first_run(config), events).phase is Failed),
    decreases events.len(),
{
    if events.len() > 0 {
        let rest = events.drop_last();
        assert forall|i: int| 0 <= i < rest.len() implies match (#[trigger] rest[i]).0 {
            RunEvent::Registered { outcome, .. } => outcome matches Ok(receipt)
                && receipt.accepted,
            RunEvent::StopLost(_) => false,
            _ => true,
        } by {
            assert(events[i] == rest[i]);
        }
        failed_claims_never_end_a_run(config, rest);
        let last = events[events.len() - 1];
        assert(last == events.last());
    }
}

/// The batches that were taken on in the course of a series of events, in order.
pub open spec fn batches(start: RunState, events: Seq<(RunEvent, u64)>) -> Seq<Seq<WorkUnit>>
    decreases events.len(),
{
    if events.len() == 0 {
        Seq::empty()
    } else {
        let (event, jitter) = events.last();
        match run_after(start, events.drop_last()).step(event, jitter).1.launch {
            Some(batch) => batches(start, events.drop_last()).push(batch),
            None => batches(start, events.drop_last()),
        }
    }
}

/// How many of a series of flags are set.
pub open spec fn how_many(flags: Seq<bool>) -> nat
    decreases flags.len(),
{
    if flags.len() == 0 {
        0
    } else {
        how_many(flags.drop_last()) + if flags.last() {
            1nat
        } else {
            0nat
        }
    }
}

/// How many units the batches hold that are not done.
pub open spec fn units_under_way(batches: Seq<Seq<WorkUnit>>, done: Seq<bool>) -> nat
    decreases batches.len(),
{
    if batches.len() == 0 {
        0
    } else {
        units_under_way(batches.drop_last(), done.drop_last()) + if done.last() {
            0nat
        } else {
            batches.last().len()
        }
    }
}

/// No claim brings more units than were asked for.
pub open spec fn claims_within(events: Seq<(RunEvent, u64)>, batch_size: int) -> bool {
    forall|i: int|
        0 <= i < events.len() ==> ((#[trigger] events[i]).0 matches RunEvent::Claimed { claim, .. }
            ==> claim.brought().len() <= batch_size)
}

proof fn batches_are_counted(start: RunState, events: Seq<(RunEvent, u64)>)
    ensures
        batches(start, events).len() == launched(start, events),
    decreases events.len(),
{
    if events.len() > 0 {
        batches_are_counted(start, events.drop_last());
    }
}

/// Batches are no larger than asked for, where claims are not. A claim of one
/// unit never brings more.
proof fn batches_are_small(start: RunState, events: Seq<(RunEvent, u64)>)
    requires
        start.wf(),
        start.batch_size == 1 || claims_within(events, start.batch_size as int),
    ensures
        forall|k: int|
            0 <= k < batches(start, events).len() ==> (#[trigger] batches(start, events)[k]).len()
                <= start.batch_size,
        run_after(start, events).batch_size == start.batch_size,
    decreases events.len(),
{
    if events.len() > 0 {
        let rest = events.drop_last();
        if start.batch_size != 1 {
            assert forall|i: int| 0 <= i < rest.len() implies (
            (#[trigger] rest[i]).0 matches RunEvent::Claimed { claim, .. } ==> claim.brought().len()
                <= start.batch_size) by {
                assert(events[i] == rest[i]);
            }
        }
        batches_are_small(start, rest);
        runs_stay_valid_throughout(start, rest);
        let last = events[events.len() - 1];
        assert(last == events.last());
        runs_stay_valid(run_after(start, rest), last.0, last.1);
        claimed_batches_are_taken_on(run_after(start, rest), last.0, last.1);
        let earlier = batches(start, rest);
        let all = batches(start, events);
        assert forall|k: int| 0 <= k < all.len() implies (#[trigger] all[k]).len()
            <= start.batch_size by {
            if k < earlier.len() {
                assert(all[k] == earlier[k]);
            } else if let RunEvent::Claimed { claim, .. } = last.0 {
                assert(all[k] == claim.brought());
                assert(start.batch_size != 1 ==> claim.brought().len() <= start.batch_size);
            }
        }
    }
}

/// Small batches hold few units.
proof fn small_batches_hold_few_units(batches: Seq<Seq<WorkUnit>>, done: Seq<bool>, size: int)
    requires
        batches.len() == done.len(),
        0 <= size,
        forall|k: int| 0 <= k < batches.len() ==> (#[trigger] batches[k]).len() <= size,
    ensures
        how_many(done) <= done.len(),
        units_under_way(batches, done) <= (done.len() - how_many(done)) * size,
    decreases batches.len(),
{
    if batches.len() > 0 {
        let rest = batches.drop_last();
        assert forall|k: int| 0 <= k < rest.len() implies (#[trigger] rest[k]).len() <= size by {
            assert(batches[k] == rest[k]);
        }
        small_batches_hold_few_units(rest, done.drop_last(), size);
        assert(batches[batches.len() - 1].len() <= size);
        let open = done.drop_last().len() - how_many(done.drop_last());
        assert((open + 1) * size == open * size + size) by (nonlinear_arith);
    } else {
        assert((done.len() - how_many(done)) * size == 0) by (nonlinear_arith)
            requires
                done.len() - how_many(done) == 0,
        ;
    }
}

/// The units under way, those of batches that are not done, are no more than the
/// configured concurrency times the configured batch size, where no claim brings
/// more units than were asked for. At a batch size of one that needs no saying:
/// they are no more than the concurrency.
pub proof fn units_under_way_are_limited(
    config: Config,
    events: Seq<(RunEvent, u64)>,
    done: Seq<bool>,
)
    requires
        config.fault() is None,
        config.work_batch_size == 1 || claims_within(events, config.work_batch_size as int),
        done.len() == batches(first_run(config), events).len(),
        how_many(done) == finished(first_run(config), events),
    ensures
        units_under_way(batches(first_run(config), events), done) <= config.work_concurrency
            * config.work_batch_size,
        config.work_batch_size == 1 ==> units_under_way(
            batches(first_run(config), events),
            done,
        ) <= config.work_concurrency,
{
    let start = first_run(config);
    runs_begin_valid(config);
    batches_are_limited_and_drained(config, events);
    batches_are_counted(start, events);
    batches_are_small(start, events);
    small_batches_hold_few_units(batches(start, events), done, config.work_batch_size as int);
    let active = done.len() - how_many(done);
    assert(active * config.work_batch_size <= config.work_concurrency * config.work_batch_size)
        by (nonlinear_arith)
        requires
            active <= config.work_concurrency,
            0 <= config.work_batch_size,
    ;
}

proof fn all_flags_are_set(flags: Seq<bool>)
    requires
        how_many(flags) >= flags.len(),
    ensures
        forall|k: int| 0 <= k < flags.len() ==> #[trigger] flags[k],
    decreases flags.len(),
{
    if flags.len() > 0 {
        at_most_all_are_set(flags.drop_last());
        all_flags_are_set(flags.drop_last());
        assert forall|k: int| 0 <= k < flags.len() implies #[trigger] flags[k] by {
            if k < flags.len() - 1 {
                assert(flags.drop_last()[k]);
            }
        }
    }
}

proof fn at_most_all_are_set(flags: Seq<bool>)
    ensures
        how_many(flags) <= flags.len(),
    decreases flags.len(),
{
    if flags.len() > 0 {
        at_most_all_are_set(flags.drop_last());
    }
}

/// Where the batches stand, each after a history of its own.
pub open spec fn batch_ended(
    node_id: Seq<char>,
    batch: Seq<WorkUnit>,
    max_backoff: u64,
    backend: BackendKind,
    history: Seq<BatchEvent>,
) -> bool {
    state_after(begin(node_id, batch, max_backoff, backend).0, history).stage is Finished
}

/// A run that leaves of its own accord leaves nothing behind: where a batch
/// counts as done only after it has come to its end, every batch that was taken
/// on has come to its end, with one report and one final reply to a submission
/// for each of its units.
pub proof fn a_run_leaves_nothing_behind(
    config: Config,
    events: Seq<(RunEvent, u64)>,
    node_id: Seq<char>,
    backend: BackendKind,
    histories: Seq<Seq<BatchEvent>>,
)
    requires
        config.fault() is None,
        histories.len() == batches(first_run(config), events).len(),
        finished(first_run(config), events) <= how_many(
            Seq::new(
                histories.len(),
                |k: int|
                    batch_ended(
                        node_id,
                        batches(first_run(config), events)[k],
                        config.max_backoff_ms,
                        backend,
                        histories[k],
                    ),
            ),
        ),
        run_after(first_run(config), events).phase is Done,
    ensures
        forall|k: int|
            0 <= k < histories.len() ==> {
                let batch = batches(first_run(config), events)[k];
                let start = begin(node_id, batch, config.max_backoff_ms, backend);
                &&& answered(start.0, #[trigger] histories[k]) == batch.len()
                &&& reports(acts(start, histories[k])).len() == batch.len()
            },
{
    let all = batches(first_run(config), events);
    let flags = Seq::new(
        histories.len(),
        |k: int| batch_ended(node_id, all[k], config.max_backoff_ms, backend, histories[k]),
    );
    batches_are_limited_and_drained(config, events);
    batches_are_counted(first_run(config), events);
    all_flags_are_set(flags);
    assert forall|k: int| 0 <= k < histories.len() implies {
        let start = begin(node_id, all[k], config.max_backoff_ms, backend);
        &&& answered(start.0, #[trigger] histories[k]) == all[k].len()
        &&& reports(acts(start, histories[k])).len() == all[k].len()
    } by {
        assert(flags[k]);
        each_unit_has_one_final_reply(
            node_id,
            all[k],
            config.max_backoff_ms,
            backend,
            histories[k],
        );
        each_unit_is_reported_once_and_in_order(
            node_id,
            all[k],
            config.max_backoff_ms,
            backend,
            histories[k],
        );
    }
}

/// A worker that is registered and gets no work pauses for the poll interval; one
/// whose first claim fails pauses for the poll interval and what was drawn, up to
/// the maximum. Either way it asks again after that.
pub proof fn the_first_pauses(config: Config, registered: RunEvent, claim: Claim, jitter: u64)
    requires
        config.fault() is None,
        registered matches RunEvent::Registered { outcome: Ok(receipt), stopping }
            && receipt.accepted && !stopping,
        claim.answers(config.work_batch_size),
        claim.brought().len() == 0,
    ensures
        ({
            let start = first_run(config);
            let waiting = start.step(registered, 0);
            let claiming = waiting.0.step(RunEvent::Permitted, 0);
            let pausing = claiming.0.step(RunEvent::Claimed { claim, stopping: false }, jitter);
            &&& waiting.1.next is AwaitPermit
            &&& config.work_batch_size == 1 ==> claiming.1.next is ClaimOne
            &&& config.work_batch_size > 1 ==> claiming.1.next == NextAct::ClaimBatch(
                config.work_batch_size,
            )
            &&& claim is Failed ==> pausing.1.next == NextAct::Pause(
                smaller(config.poll_interval_ms + jitter, config.max_backoff_ms as int),
            )
            &&& !(claim is Failed) ==> pausing.1.next == NextAct::Pause(
                config.poll_interval_ms as int,
            )
            &&& pausing.1.launch is None
            &&& pausing.0.step(RunEvent::Woke { stopping: false }, 0).1.next is AwaitPermit
        }),
{
}

/// A registration that is not accepted ends the run with the reason: that of the
/// coordinator, or that of the failure to ask.
pub proof fn a_refused_registration_ends_the_run(
    config: Config,
    receipt: RegistrationReceipt,
    reason: String,
    stopping: bool,
)
    requires
        config.fault() is None,
        !receipt.accepted,
    ensures
        first_run(config).step(
            RunEvent::Registered { outcome: Ok(receipt), stopping },
            0,
        ).1.next == NextAct::Fail("registration rejected: "@ + receipt.message@),
        first_run(config).step(RunEvent::Registered { outcome: Err(reason), stopping }, 0).1.next
            == NextAct::Fail(reason@),
{
}

/// Two claims that fail one after the other: the second pause is what twice the
/// first delay makes, up to the maximum.
pub proof fn pauses_double(run: RunState, stopping: bool, jitter: u64)
    requires
        run.wf(),
        run.phase is Claiming,
    ensures
        ({
            let failed = RunEvent::Claimed { claim: Claim::Failed, stopping };
            let first = run.step(failed, 0);
            let again = first.0.step(RunEvent::Woke { stopping: false }, 0).0.step(
                RunEvent::Permitted,
                0,
            ).0;
            &&& again.phase is Claiming
            &&& again.step(failed, 0).1.next == NextAct::Pause(
                smaller(2 * first.1.next->Pause_0, run.max_backoff as int),
            )
            &&& run.step(failed, jitter).1.next == NextAct::Pause(
                smaller(run.backoff + jitter, run.max_backoff as int),
            )
        }),
{
}

/// A claim that brings nothing leaves the delay alone: the next claim that fails
/// is followed by the pause that would have followed without it. A claim that
/// brings work sets the delay back to the poll interval.
pub proof fn only_work_sets_the_delay_back(
    run: RunState,
    claim: Claim,
    jitter: u64,
    later: u64,
)
    requires
        run.wf(),
        run.phase is Claiming,
        run.held < run.concurrency || claim.brought().len() == 0,
        claim.answers(run.batch_size),
        !(claim is Failed),
    ensures
        ({
            let failed = RunEvent::Claimed { claim: Claim::Failed, stopping: false };
            let ended = run.step(RunEvent::Claimed { claim, stopping: false }, jitter).0;
            let idle = ended.step(RunEvent::Woke { stopping: false }, 0).0.step(
                RunEvent::Permitted,
                0,
            ).0;
            let busy = ended.step(RunEvent::Permitted, 0).0;
            &&& claim.brought().len() == 0 ==> idle.phase is Claiming && idle.step(failed, later).1
                == run.step(failed, later).1
            &&& claim.brought().len() > 0 ==> busy.phase is Claiming && busy.step(
                failed,
                later,
            ).1.next == NextAct::Pause(
                smaller(run.poll_interval + later, run.max_backoff as int),
            )
        }),
{
}

/// A claim of one unit is answered by one unit or none, a claim of several by a
/// list; what was brought is taken on. An answer to another claim than the one
/// that was made is ignored.
pub proof fn claims_are_answered_in_kind(
    run: RunState,
    unit: WorkUnit,
    units: Vec<WorkUnit>,
    stopping: bool,
    jitter: u64,
)
    requires
        run.wf(),
        run.phase is Claiming,
        units@.len() > 0,
    ensures
        ({
            let one = run.step(
                RunEvent::Claimed { claim: Claim::Unit(Some(unit)), stopping },
                jitter,
            );
            let none = run.step(RunEvent::Claimed { claim: Claim::Unit(None), stopping }, jitter);
            let several = run.step(
                RunEvent::Claimed { claim: Claim::Units(units), stopping },
                jitter,
            );
            &&& run.batch_size == 1 ==> {
                &&& one.1.launch is Some
                &&& one.1.launch->Some_0.len() == 1
                &&& one.1.launch->Some_0[0] == unit
                &&& none.1.launch is None && none.1.next is Pause
                &&& several == (run, RunAct { launch: None, next: NextAct::Idle })
            }
            &&& run.batch_size > 1 ==> {
                &&& several.1.launch == Some(units@)
                &&& one == (run, RunAct { launch: None, next: NextAct::Idle })
                &&& none == (run, RunAct { launch: None, next: NextAct::Idle })
            }
        }),
{
}

} // verus!
