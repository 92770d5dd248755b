//! The worker: how it introduces itself, when it claims work, how long it
//! pauses and when it may leave.

use crate::backend::{BackendKind, SelectedBackend};
use crate::client::{Coordinator, RequestError};
use crate::config::{Config, ConfigError};
use crate::float_bits::Bits32;
use crate::outside::{format_uuid, parsed_url, random_up_to, uuid_text};
use crate::protocol::{
    Backend, Capabilities, Registration, RegistrationReceipt, WorkUnit, WorkloadCapability,
    LOMB_SCARGLE_V1,
};
use crate::retry::{doubled, extended, smaller};
use crate::text::joined;
use vstd::prelude::*;
use vstd::string::*;

verus! {

/// Why a worker could not be set up.
pub enum WorkerError {
    Config(ConfigError),
    Request(RequestError),
}

/// What a worker is made of.
pub struct Setup {
    pub config: Config,
    pub client: Coordinator,
    pub backend: SelectedBackend,
    pub node_id: String,
}

/// A worker that is ready to run. Its settings are in range.
pub struct Worker {
    setup: Setup,
}

impl View for Worker {
    type V = Setup;

    closed spec fn view(&self) -> Setup {
        self.setup
    }
}

/// How many threads compute: as many as configured, else as many as the machine
/// offers, else one.
pub fn compute_threads(config: &Config, available: Option<usize>) -> (r: usize)
    ensures
        r == match config.cpu_threads {
            Some(threads) => threads,
            None => match available {
                Some(count) => count,
                None => 1,
            },
        },
{
    match config.cpu_threads {
        Some(threads) => threads,
        None => match available {
            Some(count) => count,
            None => 1,
        },
    }
}

/// The one backend with this identifier.
pub open spec fn only_backend(backends: Seq<Backend>, id: Seq<char>) -> bool {
    backends.len() == 1 && backends[0].id@ == id
}

fn backend_list(kind: BackendKind) -> (r: Vec<Backend>)
    ensures
        only_backend(r@, kind.id_spec()),
{
    let mut list: Vec<Backend> = Vec::new();
    list.push(Backend { id: kind.id() });
    list
}

impl Worker {
    #[verifier::type_invariant]
    spec fn valid(self) -> bool {
        self.setup.config.fault() is None
    }

    /// What the worker is made of.
    pub fn setup(&self) -> (r: &Setup)
        ensures
            *r == self@,
            r.config.fault() is None,
    {
        proof {
            use_type_invariant(self);
        }
        &self.setup
    }

    /// Sets a worker up for a node and a backend that have been found already.
    pub fn new(config: Config, identity: u128, backend: SelectedBackend) -> (r: Result<
        Worker,
        WorkerError,
    >)
        ensures
            match config.fault() {
                Some(fault) => r == Err::<Worker, WorkerError>(WorkerError::Config(fault)),
                None => match parsed_url(config.coordinator_url@) {
                    Ok(url) => r matches Ok(worker) && worker@.config == config && worker@.backend
                        == backend && worker@.node_id@ == uuid_text(identity)
                        && worker@.client.base@ == url && worker@.client.timeout
                        == config.request_timeout_secs,
                    Err(reason) => r matches Err(WorkerError::Request(RequestError::Url(text)))
                        && text@ == reason,
                },
            },
    {
        match config.validate() {
            Ok(()) => {},
            Err(fault) => {
                return Err(WorkerError::Config(fault));
            },
        }
        let node_id = format_uuid(identity);
        match Coordinator::new(config.coordinator_url.as_str(), config.timeout()) {
            Ok(client) => Ok(Worker { setup: Setup { config, client, backend, node_id } }),
            Err(error) => Err(WorkerError::Request(error)),
        }
    }

    /// How the worker introduces itself. Only Lomb–Scargle work is advertised,
    /// on the backend that was selected.
    pub fn registration(&self, arch: &str, processor_count: usize, memory_gb: Bits32) -> (r:
        Registration)
        ensures
            r.node_id@ == self@.node_id@,
            r.capabilities.platform@ == "linux"@,
            r.capabilities.hardware_identifier@ == arch@ + " Linux CPU"@,
            r.capabilities.gpu_name@ == self@.backend.gpu_name_spec(),
            r.capabilities.processor_count == processor_count,
            r.capabilities.memory_gb == memory_gb,
            only_backend(r.capabilities.compute_backends@, self@.backend.kind.id_spec()),
            r.capabilities.workloads@.len() == 1,
            r.capabilities.workloads@[0].workload_id@ == LOMB_SCARGLE_V1@,
            only_backend(
                r.capabilities.workloads@[0].execution_backends@,
                self@.backend.kind.id_spec(),
            ),
            r.capabilities.workloads@[0].validator_id is None,
    {
        let mut workloads: Vec<WorkloadCapability> = Vec::new();
        workloads.push(
            WorkloadCapability {
                workload_id: LOMB_SCARGLE_V1,
                execution_backends: backend_list(self.setup.backend.kind),
                validator_id: None,
            },
        );
        Registration {
            node_id: self.setup.node_id.as_str(),
            capabilities: Capabilities {
                platform: "linux",
                hardware_identifier: joined(arch, " Linux CPU"),
                gpu_name: self.setup.backend.gpu_name().to_owned(),
                processor_count,
                memory_gb,
                compute_backends: backend_list(self.setup.backend.kind),
                workloads,
            },
        }
    }

    /// Begins a run: the worker registers first.
    pub fn run(&self) -> (r: (Run, RunAction))
        ensures
            r.0@ == first_run(self@.config),
            r.1@ == (RunAct { launch: None, next: NextAct::Register }),
            r.0@.wf(),
    {
        proof {
            use_type_invariant(self);
        }
        let config = &self.setup.config;
        let state = RunState {
            concurrency: config.work_concurrency,
            batch_size: config.work_batch_size,
            poll_interval: config.poll_interval_ms,
            max_backoff: config.max_backoff_ms,
            held: 0,
            backoff: config.poll_interval_ms,
            phase: Phase::Registering,
        };
        (Run { state }, RunAction { launch: None, next: Next::Register })
    }
}

#[derive(Clone, Copy, Debug, PartialEq, Eq, Structural)]
pub enum Phase {
    Registering,
    AwaitingPermit,
    Claiming,
    Pausing,
    /// No more work is claimed; batches are still being worked on.
    Draining,
    Done,
    Failed,
}

/// How far a run has come.
#[derive(Clone, Copy, Debug, PartialEq, Eq, Structural)]
pub struct RunState {
    pub concurrency: usize,
    pub batch_size: usize,
    pub poll_interval: u64,
    pub max_backoff: u64,
    /// Permits that are held, by batches and by a claim that is under way.
    pub held: usize,
    /// Milliseconds to pause after the next claim that fails, before the random
    /// part and the ceiling.
    pub backoff: u64,
    pub phase: Phase,
}

/// How a claim ended.
pub enum Claim {
    /// The answer to a claim of one unit.
    Unit(Option<WorkUnit>),
    /// The answer to a claim of several units.
    Units(Vec<WorkUnit>),
    Failed,
}

impl Claim {
    /// The units that were handed out.
    pub open spec fn brought(self) -> Seq<WorkUnit> {
        match self {
            Claim::Unit(Some(unit)) => seq![unit],
            Claim::Units(units) => units@,
            _ => Seq::empty(),
        }
    }

    /// The claim ended in a way that a claim of so many units can end.
    pub open spec fn answers(self, batch_size: usize) -> bool {
        match self {
            Claim::Unit(_) => batch_size == 1,
            Claim::Units(_) => batch_size != 1,
            Claim::Failed => true,
        }
    }
}

/// What happened to a run. `stopping` tells whether the worker has been told to
/// stop by then.
pub enum RunEvent {
    /// The reply to the registration, or why there is none.
    Registered { outcome: Result<RegistrationReceipt, String>, stopping: bool },
    /// A permit has been taken.
    Permitted,
    /// The signal to stop has changed.
    StopChanged,
    /// The signal to stop can no longer be given, for this reason.
    StopLost(String),
    Claimed { claim: Claim, stopping: bool },
    /// A pause is over.
    Woke { stopping: bool },
    /// A batch is done and its permit free.
    BatchDone,
}

/// What the driver of a run is to do next.
pub enum Next {
    Register,
    /// Take a permit, unless the signal to stop changes first.
    AwaitPermit,
    ClaimOne,
    ClaimBatch(usize),
    /// Let so many milliseconds pass, unless the signal to stop changes first.
    Pause(u64),
    /// Wait for the batches that are still being worked on.
    Drain,
    Exit,
    Fail(String),
    /// Nothing new.
    Idle,
}

/// What follows an event. A batch in `launch` is taken on, under the permit that
/// its claim holds.
pub struct RunAction {
    pub launch: Option<Vec<WorkUnit>>,
    pub next: Next,
}

/// The contents of a [`Next`].
pub enum NextAct {
    Register,
    AwaitPermit,
    ClaimOne,
    ClaimBatch(usize),
    Pause(int),
    Drain,
    Exit,
    Fail(Seq<char>),
    Idle,
}

/// The contents of a [`RunAction`].
pub struct RunAct {
    pub launch: Option<Seq<WorkUnit>>,
    pub next: NextAct,
}

impl View for RunAction {
    type V = RunAct;

    open spec fn view(&self) -> RunAct {
        RunAct {
            launch: match self.launch {
                Some(units) => Some(units@),
                None => None,
            },
            next: match self.next {
                Next::Register => NextAct::Register,
                Next::AwaitPermit => NextAct::AwaitPermit,
                Next::ClaimOne => NextAct::ClaimOne,
                Next::ClaimBatch(size) => NextAct::ClaimBatch(size),
                Next::Pause(ms) => NextAct::Pause(ms as int),
                Next::Drain => NextAct::Drain,
                Next::Exit => NextAct::Exit,
                Next::Fail(reason) => NextAct::Fail(reason@),
                Next::Idle => NextAct::Idle,
            },
        }
    }
}

/// The state in which a run begins.
pub open spec fn first_run(config: Config) -> RunState {
    RunState {
        concurrency: config.work_concurrency,
        batch_size: config.work_batch_size,
        poll_interval: config.poll_interval_ms,
        max_backoff: config.max_backoff_ms,
        held: 0,
        backoff: config.poll_interval_ms,
        phase: Phase::Registering,
    }
}

impl RunState {
    /// The state is one that a run can be in.
    pub open spec fn wf(self) -> bool {
        &&& self.concurrency >= 1
        &&& self.batch_size >= 1
        &&& self.held <= self.concurrency
        &&& match self.phase {
            Phase::Registering | Phase::Done => self.held == 0,
            Phase::Claiming | Phase::Draining => self.held >= 1,
            _ => true,
        }
    }

    /// How many batches are being worked on.
    pub open spec fn running(self) -> int {
        self.held - if self.phase is Claiming {
            1int
        } else {
            0int
        }
    }

    pub open spec fn at(self, phase: Phase) -> RunState {
        RunState { phase, ..self }
    }

    pub open spec fn holding(self, held: int) -> RunState {
        RunState { held: held as usize, ..self }
    }

    /// Stops claiming: leaves at once where nothing is being worked on.
    pub open spec fn wind_down(self) -> (RunState, NextAct) {
        if self.held == 0 {
            (self.at(Phase::Done), NextAct::Exit)
        } else {
            (self.at(Phase::Draining), NextAct::Drain)
        }
    }

    /// Goes on to the next claim, unless the worker has been told to stop.
    pub open spec fn go_on(self, stopping: bool) -> (RunState, NextAct) {
        if stopping {
            self.wind_down()
        } else {
            (self.at(Phase::AwaitingPermit), NextAct::AwaitPermit)
        }
    }

    pub open spec fn fail(self, reason: Seq<char>) -> (RunState, NextAct) {
        (self.at(Phase::Failed), NextAct::Fail(reason))
    }

    /// What an event leads to, given the random part of the pause after a claim
    /// that failed. An event that is not awaited changes nothing.
    pub open spec fn advance(self, event: RunEvent, jitter: u64) -> (RunState, NextAct) {
        match (self.phase, event) {
            (_, RunEvent::BatchDone) => if self.running() <= 0 {
                (self, NextAct::Idle)
            } else if self.phase is Draining && self.held == 1 {
                (self.holding(0).at(Phase::Done), NextAct::Exit)
            } else {
                (self.holding(self.held - 1), NextAct::Idle)
            },
            (Phase::Registering, RunEvent::Registered { outcome, stopping }) => match outcome {
                Ok(receipt) => if receipt.accepted {
                    self.go_on(stopping)
                } else {
                    self.fail("registration rejected: "@ + receipt.message@)
                },
                Err(reason) => self.fail(reason@),
            },
            (Phase::AwaitingPermit, RunEvent::Permitted) => if self.held < self.concurrency {
                (
                    self.holding(self.held + 1).at(Phase::Claiming),
                    if self.batch_size == 1 {
                        NextAct::ClaimOne
                    } else {
                        NextAct::ClaimBatch(self.batch_size)
                    },
                )
            } else {
                (self, NextAct::Idle)
            },
            (Phase::AwaitingPermit, RunEvent::StopChanged) => self.wind_down(),
            (Phase::AwaitingPermit, RunEvent::StopLost(reason)) => self.fail(reason@),
            (Phase::Claiming, RunEvent::Claimed { claim, stopping }) => if !claim.answers(
                self.batch_size,
            ) {
                (self, NextAct::Idle)
            } else if claim is Failed {
                (
                    RunState {
                        backoff: smaller(2 * self.backoff, self.max_backoff as int) as u64,
                        ..self.holding(self.held - 1).at(Phase::Pausing)
                    },
                    NextAct::Pause(smaller(self.backoff + jitter, self.max_backoff as int)),
                )
            } else if claim.brought().len() > 0 {
                (RunState { backoff: self.poll_interval, ..self }).go_on(stopping)
            } else {
                (
                    self.holding(self.held - 1).at(Phase::Pausing),
                    NextAct::Pause(self.poll_interval as int),
                )
            },
            (Phase::Pausing, RunEvent::Woke { stopping }) => self.go_on(stopping),
            _ => (self, NextAct::Idle),
        }
    }

    /// The units that an event brings, where it is the awaited end of a claim.
    pub open spec fn launches(self, event: RunEvent) -> Option<Seq<WorkUnit>> {
        match (self.phase, event) {
            (Phase::Claiming, RunEvent::Claimed { claim, .. }) => if claim.answers(self.batch_size)
                && claim.brought().len() > 0 {
                Some(claim.brought())
            } else {
                None
            },
            _ => None,
        }
    }

    pub open spec fn step(self, event: RunEvent, jitter: u64) -> (RunState, RunAct) {
        let (after, next) = self.advance(event, jitter);
        (after, RunAct { launch: self.launches(event), next })
    }

    fn wind_down_now(self) -> (r: (RunState, RunAction))
        ensures
            (r.0, r.1@.next) == self.wind_down(),
            r.1.launch is None,
    {
        if self.held == 0 {
            (RunState { phase: Phase::Done, ..self }, RunAction { launch: None, next: Next::Exit })
        } else {
            (RunState { phase: Phase::Draining, ..self }, RunAction { launch: None, next: Next::Drain })
        }
    }

    fn go_on_now(self, stopping: bool) -> (r: (RunState, RunAction))
        ensures
            (r.0, r.1@.next) == self.go_on(stopping),
            r.1.launch is None,
    {
        if stopping {
            self.wind_down_now()
        } else {
            (
                RunState { phase: Phase::AwaitingPermit, ..self },
                RunAction { launch: None, next: Next::AwaitPermit },
            )
        }
    }

    fn fail_now(self, reason: String) -> (r: (RunState, RunAction))
        ensures
            (r.0, r.1@.next) == self.fail(reason@),
            r.1.launch is None,
    {
        (
            RunState { phase: Phase::Failed, ..self },
            RunAction { launch: None, next: Next::Fail(reason) },
        )
    }

    fn idle(self) -> (r: (RunState, RunAction))
        ensures
            r.0 == self,
            r.1@ == (RunAct { launch: None, next: NextAct::Idle }),
    {
        (self, RunAction { launch: None, next: Next::Idle })
    }

    /// What the end of a claim leads to.
    fn claimed(self, claim: Claim, stopping: bool, jitter: u64) -> (r: (RunState, RunAction))
        requires
            self.wf(),
            self.phase is Claiming,
        ensures
            (r.0, r.1@) == self.step(RunEvent::Claimed { claim, stopping }, jitter),
    {
        let ghost ended = claim;
        let units: Vec<WorkUnit> = match claim {
            Claim::Failed => {
                return (
                    RunState {
                        held: self.held - 1,
                        phase: Phase::Pausing,
                        backoff: doubled(self.backoff, self.max_backoff),
                        ..self
                    },
                    RunAction {
                        launch: None,
                        next: Next::Pause(extended(self.backoff, jitter, self.max_backoff)),
                    },
                );
            },
            Claim::Unit(unit) => {
                if self.batch_size != 1 {
                    return self.idle();
                }
                let mut units: Vec<WorkUnit> = Vec::new();
                if let Some(unit) = unit {
                    units.push(unit);
                }
                units
            },
            Claim::Units(units) => {
                if self.batch_size == 1 {
                    return self.idle();
                }
                units
            },
        };
        assert(units@ =~= ended.brought());
        if units.len() > 0 {
            let (run, action) = RunState { backoff: self.poll_interval, ..self }.go_on_now(stopping);
            (run, RunAction { launch: Some(units), next: action.next })
        } else {
            (
                RunState { held: self.held - 1, phase: Phase::Pausing, ..self },
                RunAction { launch: None, next: Next::Pause(self.poll_interval) },
            )
        }
    }

    /// What the end of a batch leads to.
    fn batch_done(self) -> (r: (RunState, RunAction))
        requires
            self.wf(),
        ensures
            (r.0, r.1@) == self.step(RunEvent::BatchDone, 0),
    {
        let claiming: usize = if self.phase == Phase::Claiming {
            1
        } else {
            0
        };
        if self.held <= claiming {
            self.idle()
        } else if self.phase == Phase::Draining && self.held == 1 {
            (
                RunState { held: 0, phase: Phase::Done, ..self },
                RunAction { launch: None, next: Next::Exit },
            )
        } else {
            RunState { held: self.held - 1, ..self }.idle()
        }
    }

    /// What an event leads to.
    fn take_in(self, event: RunEvent, jitter: u64) -> (r: (RunState, RunAction))
        requires
            self.wf(),
        ensures
            (r.0, r.1@) == self.step(event, jitter),
            r.0.wf(),
    {
        match (self.phase, event) {
            (_, RunEvent::BatchDone) => self.batch_done(),
            (Phase::Registering, RunEvent::Registered { outcome, stopping }) => match outcome {
                Ok(receipt) => if receipt.accepted {
                    self.go_on_now(stopping)
                } else {
                    self.fail_now(joined("registration rejected: ", receipt.message.as_str()))
                },
                Err(reason) => self.fail_now(reason),
            },
            (Phase::AwaitingPermit, RunEvent::Permitted) => if self.held < self.concurrency {
                (
                    RunState { held: self.held + 1, phase: Phase::Claiming, ..self },
                    RunAction {
                        launch: None,
                        next: if self.batch_size == 1 {
                            Next::ClaimOne
                        } else {
                            Next::ClaimBatch(self.batch_size)
                        },
                    },
                )
            } else {
                self.idle()
            },
            (Phase::AwaitingPermit, RunEvent::StopChanged) => self.wind_down_now(),
            (Phase::AwaitingPermit, RunEvent::StopLost(reason)) => self.fail_now(reason),
            (Phase::Claiming, RunEvent::Claimed { claim, stopping }) => self.claimed(
                claim,
                stopping,
                jitter,
            ),
            (Phase::Pausing, RunEvent::Woke { stopping }) => self.go_on_now(stopping),
            _ => self.idle(),
        }
    }
}

/// A run that is under way. It is always in a valid state.
#[derive(Clone, Copy, Debug)]
pub struct Run {
    state: RunState,
}

impl View for Run {
    type V = RunState;

    closed spec fn view(&self) -> RunState {
        self.state
    }
}

impl Run {
    #[verifier::type_invariant]
    spec fn valid(self) -> bool {
        self.state.wf()
    }

    /// How far the run has come.
    pub fn state(&self) -> (r: RunState)
        ensures
            r == self@,
            r.wf(),
    {
        proof {
            use_type_invariant(self);
        }
        self.state
    }

    /// Takes an event in and says what is to be done, where the random part of
    /// a pause is given.
    pub fn handle_with(self, event: RunEvent, jitter: u64) -> (r: (Run, RunAction))
        ensures
            (r.0@, r.1@) == self@.step(event, jitter),
            r.0@.wf(),
    {
        proof {
            use_type_invariant(&self);
        }
        let (state, action) = self.state.take_in(event, jitter);
        (Run { state }, action)
    }

    /// Takes an event in and says what is to be done. A pause after a claim that
    /// failed is drawn out by up to a quarter, at random, as far as the ceiling
    /// allows.
    pub fn handle(self, event: RunEvent) -> (r: (Run, RunAction))
        ensures
            exists|jitter: u64|
                jitter <= self@.backoff / 4 && (r.0@, r.1@) == #[trigger] self@.step(event, jitter),
            r.0@.wf(),
    {
        let jitter: u64 = match &event {
            RunEvent::Claimed { claim: Claim::Failed, stopping: _ } => random_up_to(
                self.state.backoff / 4,
            ),
            _ => 0,
        };
        self.handle_with(event, jitter)
    }
}

} // verus!
