//! The life of a claimed batch, from its first clock reading to the last
//! receipt.
//!
//! A [`BatchRun`] decides; whoever drives it performs the [`BatchAction`] it
//! returns and hands the outcome back as a [`BatchEvent`].

use crate::backend::{BackendError, BackendKind};
use crate::box_period_search::BoxPeriodError;
use crate::client::RequestError;
use crate::float_bits::Bits64;
use crate::protocol::{
    completed_box_period_report, completed_report, failed_report, BoxPeriodParameters,
    BoxPeriodPayload, BoxPeriodResult, ExecutionDuration, FailureKind, LombPayload, LombResult,
    Report, ResultReceipt, WorkResult, WorkUnit, BOX_PERIOD_SEARCH_V1, LOMB_SCARGLE_V1,
};
use crate::retry::{
    fetch_again, fetch_retried, fetch_with_retry, smaller, submit_with_retry, FetchRetry,
    FIRST_SUBMIT_DELAY,
};
use crate::text::{joined, same_text};
use vstd::prelude::*;

verus! {

/// A computation to perform on a dataset.
pub enum Job {
    Lomb(LombPayload),
    /// Always performed on the CPU.
    BoxPeriod(BoxPeriodPayload),
}

/// The contents of a [`Job`].
pub enum JobParameters {
    Lomb(LombPayload),
    BoxPeriod(BoxPeriodParameters),
}

impl View for Job {
    type V = JobParameters;

    open spec fn view(&self) -> JobParameters {
        match self {
            Job::Lomb(payload) => JobParameters::Lomb(*payload),
            Job::BoxPeriod(payload) => JobParameters::BoxPeriod(payload@),
        }
    }
}

/// How a computation ended.
pub enum Computation {
    Lomb(Result<LombResult, BackendError>),
    BoxPeriod(Result<BoxPeriodResult, BoxPeriodError>),
    /// It did not run to its end.
    Aborted(String),
}

/// What the driver of a batch is to do next.
pub enum BatchAction {
    /// Set the clock to zero, then read it.
    StartClock,
    /// Read the clock.
    ReadClock,
    /// Ask for the dataset of the current unit.
    Fetch,
    /// Let so many milliseconds pass.
    Wait(u64),
    /// Compute on the dataset that was fetched last.
    Compute(Job),
    /// Write the report down as JSON text.
    Encode(WorkResult),
    /// Submit what was written down.
    Submit,
    /// Nothing; an event is still awaited.
    Idle,
    /// Nothing; the batch is done.
    Finish,
}

/// The contents of a [`BatchAction`].
pub enum Act {
    StartClock,
    ReadClock,
    Fetch,
    Wait(u64),
    Compute(JobParameters),
    Encode(Report),
    Submit,
    Idle,
    Finish,
}

impl View for BatchAction {
    type V = Act;

    open spec fn view(&self) -> Act {
        match self {
            BatchAction::StartClock => Act::StartClock,
            BatchAction::ReadClock => Act::ReadClock,
            BatchAction::Fetch => Act::Fetch,
            BatchAction::Wait(ms) => Act::Wait(*ms),
            BatchAction::Compute(job) => Act::Compute(job@),
            BatchAction::Encode(result) => Act::Encode(result@),
            BatchAction::Submit => Act::Submit,
            BatchAction::Idle => Act::Idle,
            BatchAction::Finish => Act::Finish,
        }
    }
}

/// What happened. Times are seconds since the clock was started.
pub enum BatchEvent {
    Clock { elapsed: Bits64 },
    Fetched { outcome: Result<(), RequestError>, elapsed: Bits64 },
    Waited,
    Computed { computation: Computation, seconds: Bits64, elapsed: Bits64 },
    Encoded { body: Vec<u8> },
    Submitted { reply: Result<ResultReceipt, RequestError> },
}

impl BatchEvent {
    /// Request errors name status codes.
    pub open spec fn valid(self) -> bool {
        match self {
            BatchEvent::Fetched { outcome: Err(error), .. } => error.valid(),
            BatchEvent::Submitted { reply: Err(error) } => error.valid(),
            _ => true,
        }
    }
}

/// Where a batch stands.
enum Stage {
    /// The clock of the shared transfer is being started.
    SharedClock,
    /// The shared dataset is being asked for.
    SharedFetch(FetchRetry),
    SharedFetchWait(FetchRetry),
    /// The clock is being read for the current unit.
    Clock,
    /// The dataset of the current unit is being asked for.
    Fetch(FetchRetry),
    FetchWait(FetchRetry),
    Compute,
    Encode,
    Submit { body: Vec<u8>, delay: u64 },
    SubmitWait { body: Vec<u8>, delay: u64 },
    Finished,
}

/// Where a batch stands, and what it waits with.
pub enum StageState {
    SharedClock,
    SharedFetch(FetchRetry),
    SharedFetchWait(FetchRetry),
    Clock,
    Fetch(FetchRetry),
    FetchWait(FetchRetry),
    Compute,
    Encode,
    Submit { body: Seq<u8>, delay: u64 },
    SubmitWait { body: Seq<u8>, delay: u64 },
    Finished,
}

impl View for Stage {
    type V = StageState;

    closed spec fn view(&self) -> StageState {
        match self {
            Stage::SharedClock => StageState::SharedClock,
            Stage::SharedFetch(retry) => StageState::SharedFetch(*retry),
            Stage::SharedFetchWait(retry) => StageState::SharedFetchWait(*retry),
            Stage::Clock => StageState::Clock,
            Stage::Fetch(retry) => StageState::Fetch(*retry),
            Stage::FetchWait(retry) => StageState::FetchWait(*retry),
            Stage::Compute => StageState::Compute,
            Stage::Encode => StageState::Encode,
            Stage::Submit { body, delay } => StageState::Submit { body: body@, delay: *delay },
            Stage::SubmitWait { body, delay } => StageState::SubmitWait {
                body: body@,
                delay: *delay,
            },
            Stage::Finished => StageState::Finished,
        }
    }
}

/// A batch of units and how far it has come.
struct Progress {
    node_id: String,
    units: Vec<WorkUnit>,
    max_backoff: u64,
    backend: BackendKind,
    /// The current unit; the units before it are done.
    next: usize,
    /// A dataset was fetched that all units share.
    shared: bool,
    stage: Stage,
}

/// The contents of a [`BatchRun`].
pub struct BatchState {
    pub node_id: Seq<char>,
    pub units: Seq<WorkUnit>,
    pub max_backoff: u64,
    pub backend: BackendKind,
    pub next: int,
    pub shared: bool,
    pub stage: StageState,
}

impl View for Progress {
    type V = BatchState;

    closed spec fn view(&self) -> BatchState {
        BatchState {
            node_id: self.node_id@,
            units: self.units@,
            max_backoff: self.max_backoff,
            backend: self.backend,
            next: self.next as int,
            shared: self.shared,
            stage: self.stage@,
        }
    }
}

/// The workloads that can be performed.
pub open spec fn supported(workload_id: Seq<char>) -> bool {
    workload_id == LOMB_SCARGLE_V1@ || workload_id == BOX_PERIOD_SEARCH_V1@
}

pub fn is_supported(workload_id: &str) -> (r: bool)
    ensures
        r == supported(workload_id@),
{
    same_text(workload_id, LOMB_SCARGLE_V1) || same_text(workload_id, BOX_PERIOD_SEARCH_V1)
}

/// Two units ask for the same work on the same dataset.
pub open spec fn alike(a: WorkUnit, b: WorkUnit) -> bool {
    a.project_id@ == b.project_id@ && a.dataset_id@ == b.dataset_id@ && a.workload_id@
        == b.workload_id@
}

/// A nonempty batch whose units are all alike.
pub open spec fn homogeneous(units: Seq<WorkUnit>) -> bool {
    units.len() > 0 && forall|i: int| 0 <= i < units.len() ==> alike(#[trigger] units[i], units[0])
}

pub fn is_homogeneous(units: &Vec<WorkUnit>) -> (r: bool)
    ensures
        r == homogeneous(units@),
{
    if units.len() == 0 {
        return false;
    }
    let mut i: usize = 0;
    while i < units.len()
        invariant
            0 < units@.len(),
            i <= units@.len(),
            forall|k: int| 0 <= k < i ==> alike(#[trigger] units@[k], units@[0]),
        decreases units.len() - i,
    {
        let unit: &WorkUnit = &units[i];
        let first: &WorkUnit = &units[0];
        if unit.project_id != first.project_id || unit.dataset_id != first.dataset_id
            || unit.workload_id != first.workload_id {
            assert(!alike(units@[i as int], units@[0]));
            return false;
        }
        i += 1;
    }
    true
}

/// One download serves the whole batch.
pub open spec fn shares_dataset(units: Seq<WorkUnit>) -> bool {
    homogeneous(units) && supported(units[0].workload_id@)
}

/// The kind of failure that a backend's error is.
pub open spec fn backend_failure_kind_spec(error: BackendError) -> FailureKind {
    match error {
        BackendError::InvalidInput(_) => FailureKind::InvalidInput,
        BackendError::Execution(_) => FailureKind::Execution,
    }
}

pub fn backend_failure_kind(error: &BackendError) -> (r: FailureKind)
    ensures
        r == backend_failure_kind_spec(*error),
{
    match error {
        BackendError::InvalidInput(_) => FailureKind::InvalidInput,
        BackendError::Execution(_) => FailureKind::Execution,
    }
}

/// The kind of failure that a dataset request's error is: a reply that makes
/// no sense or refuses is the unit's fault, anything else the transport's.
pub open spec fn fetch_failure_kind_spec(error: RequestError) -> FailureKind {
    match error {
        RequestError::InvalidResponse(_) | RequestError::Permanent(_) => FailureKind::InvalidInput,
        _ => FailureKind::TransportUnavailable,
    }
}

pub fn fetch_failure_kind(error: &RequestError) -> (r: FailureKind)
    ensures
        r == fetch_failure_kind_spec(*error),
{
    match error {
        RequestError::InvalidResponse(_) | RequestError::Permanent(_) => FailureKind::InvalidInput,
        _ => FailureKind::TransportUnavailable,
    }
}

/// What a unit asks to be computed, or why it cannot be.
pub open spec fn job_of(unit: WorkUnit) -> Result<JobParameters, Seq<char>> {
    if unit.workload_id@ == LOMB_SCARGLE_V1@ {
        match unit.lomb_payload_spec() {
            Ok(payload) => Ok(JobParameters::Lomb(payload)),
            Err(message) => Err(message),
        }
    } else {
        match unit.box_period_payload_spec() {
            Ok(payload) => Ok(JobParameters::BoxPeriod(payload)),
            Err(message) => Err(message),
        }
    }
}

pub fn plan_job(unit: &WorkUnit) -> (r: Result<Job, String>)
    requires
        supported(unit.workload_id@),
    ensures
        match r {
            Ok(job) => job_of(*unit) == Ok::<JobParameters, Seq<char>>(job@),
            Err(message) => job_of(*unit) == Err::<JobParameters, Seq<char>>(message@),
        },
{
    if same_text(unit.workload_id.as_str(), LOMB_SCARGLE_V1) {
        match unit.lomb_payload() {
            Ok(payload) => Ok(Job::Lomb(payload)),
            Err(message) => Err(message),
        }
    } else {
        match unit.box_period_payload() {
            Ok(payload) => Ok(Job::BoxPeriod(payload)),
            Err(message) => Err(message),
        }
    }
}

/// The report that a computation leads to.
pub open spec fn computed_report(
    work_id: Seq<char>,
    node_id: Seq<char>,
    backend: BackendKind,
    computation: Computation,
    seconds: Bits64,
    elapsed: Bits64,
) -> Report {
    match computation {
        Computation::Lomb(Ok(result)) => completed_report(
            work_id,
            node_id,
            result,
            backend.id_spec(),
            seconds,
            elapsed,
        ),
        Computation::Lomb(Err(error)) => failed_report(
            work_id,
            node_id,
            elapsed,
            backend_failure_kind_spec(error),
            error.message_spec(),
        ),
        Computation::BoxPeriod(Ok(result)) => completed_box_period_report(
            work_id,
            node_id,
            result,
            seconds,
            elapsed,
        ),
        Computation::BoxPeriod(Err(error)) => failed_report(
            work_id,
            node_id,
            elapsed,
            FailureKind::InvalidInput,
            error.message_spec(),
        ),
        Computation::Aborted(reason) => failed_report(
            work_id,
            node_id,
            elapsed,
            FailureKind::Execution,
            reason@,
        ),
    }
}

pub fn report_computation(
    work_id: &str,
    node_id: &str,
    backend: BackendKind,
    computation: Computation,
    seconds: Bits64,
    elapsed: Bits64,
) -> (r: WorkResult)
    ensures
        r@ == computed_report(work_id@, node_id@, backend, computation, seconds, elapsed),
{
    match computation {
        Computation::Lomb(Ok(result)) => WorkResult::completed(
            work_id,
            node_id,
            result,
            ExecutionDuration { backend: backend.id(), seconds },
            elapsed,
        ),
        Computation::Lomb(Err(error)) => WorkResult::failed(
            work_id,
            node_id,
            elapsed,
            backend_failure_kind(&error),
            error.message(),
        ),
        Computation::BoxPeriod(Ok(result)) => WorkResult::completed_box_period(
            work_id,
            node_id,
            result,
            ExecutionDuration { backend: BackendKind::Cpu.id(), seconds },
            elapsed,
        ),
        Computation::BoxPeriod(Err(error)) => WorkResult::failed(
            work_id,
            node_id,
            elapsed,
            FailureKind::InvalidInput,
            error.message().to_owned(),
        ),
        Computation::Aborted(reason) => WorkResult::failed(
            work_id,
            node_id,
            elapsed,
            FailureKind::Execution,
            reason,
        ),
    }
}

impl BatchState {
    /// The state is one that a batch can be in.
    pub open spec fn wf(self) -> bool {
        &&& 0 <= self.next <= self.units.len()
        &&& self.stage is Finished <==> self.next == self.units.len()
        &&& self.shared ==> shares_dataset(self.units)
        &&& match self.stage {
            StageState::SharedClock => self.next == 0 && !self.shared && shares_dataset(self.units),
            StageState::SharedFetch(retry) | StageState::SharedFetchWait(retry) => self.next == 0
                && !self.shared && shares_dataset(self.units) && retry.wf(),
            StageState::Fetch(retry) | StageState::FetchWait(retry) => !self.shared && supported(
                self.units[self.next].workload_id@,
            ) && retry.wf(),
            _ => true,
        }
    }

    pub open spec fn at(self, stage: StageState) -> BatchState {
        BatchState { stage, ..self }
    }

    /// Turns to the unit at `next`, or finishes where there is none.
    pub open spec fn turn_to(self, next: int, restart_clock: bool) -> (BatchState, Act) {
        let turned = BatchState { next, ..self };
        if next == self.units.len() {
            (turned.at(StageState::Finished), Act::Finish)
        } else {
            (
                turned.at(StageState::Clock),
                if restart_clock {
                    Act::StartClock
                } else {
                    Act::ReadClock
                },
            )
        }
    }

    /// Has the current unit reported.
    pub open spec fn report(self, report: Report) -> (BatchState, Act) {
        (self.at(StageState::Encode), Act::Encode(report))
    }

    pub open spec fn fail(self, elapsed: Bits64, kind: FailureKind, message: Seq<char>) -> (
        BatchState,
        Act,
    ) {
        self.report(
            failed_report(self.units[self.next].id@, self.node_id, elapsed, kind, message),
        )
    }

    /// Has the current unit computed on the dataset at hand.
    pub open spec fn compute(self, elapsed: Bits64) -> (BatchState, Act) {
        match job_of(self.units[self.next]) {
            Ok(job) => (self.at(StageState::Compute), Act::Compute(job)),
            Err(message) => self.fail(elapsed, FailureKind::InvalidInput, message),
        }
    }

    /// What an event leads to. An event that is not awaited changes nothing.
    pub open spec fn step(self, event: BatchEvent) -> (BatchState, Act) {
        match (self.stage, event) {
            (StageState::SharedClock, BatchEvent::Clock { .. }) => (
                self.at(StageState::SharedFetch(FetchRetry::first())),
                Act::Fetch,
            ),
            (StageState::SharedFetch(retry), BatchEvent::Fetched { outcome, .. }) => match outcome {
                Ok(_) => (BatchState { shared: true, ..self }).turn_to(0, false),
                Err(error) => if fetch_again(retry, error.transient_spec()) {
                    (
                        self.at(
                            StageState::SharedFetchWait(fetch_retried(retry, self.max_backoff)),
                        ),
                        Act::Wait(smaller(retry.delay as int, self.max_backoff as int) as u64),
                    )
                } else {
                    self.turn_to(0, true)
                },
            },
            (StageState::SharedFetchWait(retry), BatchEvent::Waited) => (
                self.at(StageState::SharedFetch(retry)),
                Act::Fetch,
            ),
            (StageState::Clock, BatchEvent::Clock { elapsed }) => if !supported(
                self.units[self.next].workload_id@,
            ) {
                self.fail(
                    elapsed,
                    FailureKind::UnsupportedWorkload,
                    "unsupported workload: "@ + self.units[self.next].workload_id@,
                )
            } else if self.shared {
                self.compute(elapsed)
            } else {
                (self.at(StageState::Fetch(FetchRetry::first())), Act::Fetch)
            },
            (StageState::Fetch(retry), BatchEvent::Fetched { outcome, elapsed }) => match outcome {
                Ok(_) => self.compute(elapsed),
                Err(error) => if fetch_again(retry, error.transient_spec()) {
                    (
                        self.at(StageState::FetchWait(fetch_retried(retry, self.max_backoff))),
                        Act::Wait(smaller(retry.delay as int, self.max_backoff as int) as u64),
                    )
                } else {
                    self.fail(elapsed, fetch_failure_kind_spec(error), error.message_spec())
                },
            },
            (StageState::FetchWait(retry), BatchEvent::Waited) => (
                self.at(StageState::Fetch(retry)),
                Act::Fetch,
            ),
            (
                StageState::Compute,
                BatchEvent::Computed { computation, seconds, elapsed },
            ) => self.report(
                computed_report(
                    self.units[self.next].id@,
                    self.node_id,
                    self.backend,
                    computation,
                    seconds,
                    elapsed,
                ),
            ),
            (StageState::Encode, BatchEvent::Encoded { body }) => (
                self.at(StageState::Submit { body: body@, delay: FIRST_SUBMIT_DELAY }),
                Act::Submit,
            ),
            (
                StageState::Submit { body, delay },
                BatchEvent::Submitted { reply },
            ) => if reply is Err && reply->Err_0.transient_spec() {
                (
                    self.at(
                        StageState::SubmitWait {
                            body,
                            delay: smaller(2 * delay, self.max_backoff as int) as u64,
                        },
                    ),
                    Act::Wait(smaller(delay as int, self.max_backoff as int) as u64),
                )
            } else {
                self.turn_to(self.next + 1, true)
            },
            (StageState::SubmitWait { body, delay }, BatchEvent::Waited) => (
                self.at(StageState::Submit { body, delay }),
                Act::Submit,
            ),
            _ => (self, Act::Idle),
        }
    }
}

/// How a batch begins: with a shared download where one serves all units, else
/// with its first unit.
pub open spec fn begin(
    node_id: Seq<char>,
    units: Seq<WorkUnit>,
    max_backoff: u64,
    backend: BackendKind,
) -> (BatchState, Act) {
    let fresh = BatchState {
        node_id,
        units,
        max_backoff,
        backend,
        next: 0,
        shared: false,
        stage: StageState::Clock,
    };
    if shares_dataset(units) {
        (fresh.at(StageState::SharedClock), Act::StartClock)
    } else {
        fresh.turn_to(0, true)
    }
}

/// How a unit that is taken on by itself begins.
pub open spec fn begin_alone(
    node_id: Seq<char>,
    unit: WorkUnit,
    max_backoff: u64,
    backend: BackendKind,
) -> (BatchState, Act) {
    (
        BatchState {
            node_id,
            units: seq![unit],
            max_backoff,
            backend,
            next: 0,
            shared: false,
            stage: StageState::Clock,
        },
        Act::StartClock,
    )
}

/// A batch that is being worked on. It is always in a valid state.
pub struct BatchRun {
    progress: Progress,
}

impl View for BatchRun {
    type V = BatchState;

    closed spec fn view(&self) -> BatchState {
        self.progress@
    }
}

/// Takes a single unit on, with a dataset of its own.
pub fn process(node_id: String, unit: WorkUnit, max_backoff: u64, backend: BackendKind) -> (r: (
    BatchRun,
    BatchAction,
))
    ensures
        (r.0@, r.1@) == begin_alone(node_id@, unit, max_backoff, backend),
        r.0@.wf(),
{
    let mut units: Vec<WorkUnit> = Vec::new();
    units.push(unit);
    let progress = Progress {
        node_id,
        units,
        max_backoff,
        backend,
        next: 0,
        shared: false,
        stage: Stage::Clock,
    };
    assert(progress.units@ =~= seq![unit]);
    (BatchRun { progress }, BatchAction::StartClock)
}

/// Takes a claimed batch on.
pub fn process_batch(
    node_id: String,
    units: Vec<WorkUnit>,
    max_backoff: u64,
    backend: BackendKind,
) -> (r: (BatchRun, BatchAction))
    ensures
        (r.0@, r.1@) == begin(node_id@, units@, max_backoff, backend),
        r.0@.wf(),
{
    let shares: bool = is_homogeneous(&units) && is_supported(units[0].workload_id.as_str());
    let empty: bool = units.len() == 0;
    let stage = if shares {
        Stage::SharedClock
    } else if empty {
        Stage::Finished
    } else {
        Stage::Clock
    };
    let progress = Progress { node_id, units, max_backoff, backend, next: 0, shared: false, stage };
    let action = if empty {
        BatchAction::Finish
    } else {
        BatchAction::StartClock
    };
    (BatchRun { progress }, action)
}

impl BatchRun {
    #[verifier::type_invariant]
    spec fn valid(self) -> bool {
        self.progress@.wf()
    }

    /// The current unit, unless the batch is done.
    pub fn unit(&self) -> (r: Option<&WorkUnit>)
        ensures
            match r {
                Some(unit) => 0 <= self@.next < self@.units.len() && *unit
                    == self@.units[self@.next],
                None => self@.stage is Finished,
            },
    {
        proof {
            use_type_invariant(self);
        }
        if self.progress.next < self.progress.units.len() {
            Some(&self.progress.units[self.progress.next])
        } else {
            None
        }
    }

    /// What is being submitted, while a submission is awaited.
    pub fn body(&self) -> (r: Option<&Vec<u8>>)
        ensures
            match r {
                Some(bytes) => self@.stage matches StageState::Submit { body, .. } && bytes@
                    == body,
                None => !(self@.stage is Submit),
            },
    {
        match &self.progress.stage {
            Stage::Submit { body, delay: _ } => Some(body),
            _ => None,
        }
    }

    /// Takes an event in and says what is to be done.
    pub fn handle(self, event: BatchEvent) -> (r: (BatchRun, BatchAction))
        requires
            event.valid(),
        ensures
            (r.0@, r.1@) == self@.step(event),
            r.0@.wf(),
    {
        proof {
            use_type_invariant(&self);
        }
        let (progress, action) = self.progress.handle(event);
        (BatchRun { progress }, action)
    }
}

impl Progress {
    /// Turns to the unit at `next`.
    fn turn_to(self, next: usize, restart_clock: bool) -> (r: (Progress, BatchAction))
        requires
            next <= self.units@.len(),
        ensures
            (r.0@, r.1@) == self@.turn_to(next as int, restart_clock),
    {
        if next == self.units.len() {
            (Progress { next, stage: Stage::Finished, ..self }, BatchAction::Finish)
        } else if restart_clock {
            (Progress { next, stage: Stage::Clock, ..self }, BatchAction::StartClock)
        } else {
            (Progress { next, stage: Stage::Clock, ..self }, BatchAction::ReadClock)
        }
    }

    /// Has the current unit report a failure.
    fn fail(self, elapsed: Bits64, kind: FailureKind, message: String) -> (r: (
        Progress,
        BatchAction,
    ))
        requires
            self.next < self.units@.len(),
        ensures
            (r.0@, r.1@) == self@.fail(elapsed, kind, message@),
    {
        let result = WorkResult::failed(
            self.units[self.next].id.as_str(),
            self.node_id.as_str(),
            elapsed,
            kind,
            message,
        );
        (Progress { stage: Stage::Encode, ..self }, BatchAction::Encode(result))
    }

    /// Has the current unit compute on the dataset at hand.
    fn compute(self, elapsed: Bits64) -> (r: (Progress, BatchAction))
        requires
            self.next < self.units@.len(),
            supported(self.units@[self.next as int].workload_id@),
        ensures
            (r.0@, r.1@) == self@.compute(elapsed),
    {
        match plan_job(&self.units[self.next]) {
            Ok(job) => (Progress { stage: Stage::Compute, ..self }, BatchAction::Compute(job)),
            Err(message) => self.fail(elapsed, FailureKind::InvalidInput, message),
        }
    }

    /// Has the current unit begin: an unknown workload is reported, a shared
    /// dataset is computed on, and any other dataset is asked for.
    fn process_with_dataset(self, elapsed: Bits64) -> (r: (Progress, BatchAction))
        requires
            self@.wf(),
            self.stage is Clock,
        ensures
            (r.0@, r.1@) == self@.step(BatchEvent::Clock { elapsed }),
    {
        if !is_supported(self.units[self.next].workload_id.as_str()) {
            let message = joined(
                "unsupported workload: ",
                self.units[self.next].workload_id.as_str(),
            );
            self.fail(elapsed, FailureKind::UnsupportedWorkload, message)
        } else if self.shared {
            self.compute(elapsed)
        } else {
            (Progress { stage: Stage::Fetch(FetchRetry::start()), ..self }, BatchAction::Fetch)
        }
    }

    /// Takes an event in and says what is to be done.
    fn handle(self, event: BatchEvent) -> (r: (Progress, BatchAction))
        requires
            self@.wf(),
            event.valid(),
        ensures
            (r.0@, r.1@) == self@.step(event),
            r.0@.wf(),
    {
        match (self.stage, event) {
            (Stage::SharedClock, BatchEvent::Clock { elapsed: _ }) => (
                Progress { stage: Stage::SharedFetch(FetchRetry::start()), ..self },
                BatchAction::Fetch,
            ),
            (Stage::SharedFetch(retry), BatchEvent::Fetched { outcome, elapsed: _ }) => {
                match outcome {
                    Ok(()) => Progress { shared: true, stage: Stage::Clock, ..self }.turn_to(
                        0,
                        false,
                    ),
                    Err(error) => match fetch_with_retry(
                        retry,
                        error.transient(),
                        self.max_backoff,
                    ) {
                        Some((wait, next)) => (
                            Progress { stage: Stage::SharedFetchWait(next), ..self },
                            BatchAction::Wait(wait),
                        ),
                        None => Progress { stage: Stage::Clock, ..self }.turn_to(0, true),
                    },
                }
            },
            (Stage::SharedFetchWait(retry), BatchEvent::Waited) => (
                Progress { stage: Stage::SharedFetch(retry), ..self },
                BatchAction::Fetch,
            ),
            (Stage::Clock, BatchEvent::Clock { elapsed }) => Progress {
                stage: Stage::Clock,
                ..self
            }.process_with_dataset(elapsed),
            (Stage::Fetch(retry), BatchEvent::Fetched { outcome, elapsed }) => match outcome {
                Ok(()) => Progress { stage: Stage::Fetch(retry), ..self }.compute(elapsed),
                Err(error) => match fetch_with_retry(retry, error.transient(), self.max_backoff) {
                    Some((wait, next)) => (
                        Progress { stage: Stage::FetchWait(next), ..self },
                        BatchAction::Wait(wait),
                    ),
                    None => {
                        let kind = fetch_failure_kind(&error);
                        let message = error.message();
                        Progress { stage: Stage::Fetch(retry), ..self }.fail(
                            elapsed,
                            kind,
                            message,
                        )
                    },
                },
            },
            (Stage::FetchWait(retry), BatchEvent::Waited) => (
                Progress { stage: Stage::Fetch(retry), ..self },
                BatchAction::Fetch,
            ),
            (Stage::Compute, BatchEvent::Computed { computation, seconds, elapsed }) => {
                let result = report_computation(
                    self.units[self.next].id.as_str(),
                    self.node_id.as_str(),
                    self.backend,
                    computation,
                    seconds,
                    elapsed,
                );
                (Progress { stage: Stage::Encode, ..self }, BatchAction::Encode(result))
            },
            (Stage::Encode, BatchEvent::Encoded { body }) => (
                Progress { stage: Stage::Submit { body, delay: FIRST_SUBMIT_DELAY }, ..self },
                BatchAction::Submit,
            ),
            (Stage::Submit { body, delay }, BatchEvent::Submitted { reply }) => {
                let transient: bool = match &reply {
                    Ok(_) => false,
                    Err(error) => error.transient(),
                };
                match submit_with_retry(delay, transient, self.max_backoff) {
                    Some((wait, next)) => (
                        Progress { stage: Stage::SubmitWait { body, delay: next }, ..self },
                        BatchAction::Wait(wait),
                    ),
                    None => {
                        let count: usize = self.units.len();
                        assert(self.next < count);
                        let next: usize = self.next + 1;
                        Progress { stage: Stage::Clock, ..self }.turn_to(next, true)
                    },
                }
            },
            (Stage::SubmitWait { body, delay }, BatchEvent::Waited) => (
                Progress { stage: Stage::Submit { body, delay }, ..self },
                BatchAction::Submit,
            ),
            (stage, _) => (Progress { stage, ..self }, BatchAction::Idle),
        }
    }
}

} // verus!
