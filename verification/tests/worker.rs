use openstar_linux_worker::backend::{BackendChoice, BackendKind, SelectedBackend};
use openstar_linux_worker::batch::{process_batch, BatchAction, BatchEvent, BatchRun, Computation};
use openstar_linux_worker::client::{Body, RequestError};
use openstar_linux_worker::config::{Config, ConfigError};
use openstar_linux_worker::float_bits::{Bits32, Bits64};
use openstar_linux_worker::json::Json;
use openstar_linux_worker::memory::{mem_total, second_field};
use openstar_linux_worker::protocol::{
    LombPayload, LombResult, NestedPayload, RegistrationReceipt, ResultReceipt, WorkUnit,
    LOMB_SCARGLE_V1,
};
use openstar_linux_worker::worker::{
    compute_threads, Claim, Next, Phase, Run, RunAction, RunEvent, Worker, WorkerError,
};

const NODE: u128 = 0x00000000_0000_4000_8000_000000000001;

fn bits(value: f32) -> Bits32 {
    Bits32 { bits: value.to_bits() }
}

fn seconds(value: f64) -> Bits64 {
    Bits64 { bits: value.to_bits() }
}

fn config(concurrency: usize, batch_size: usize) -> Config {
    Config {
        coordinator_url: "http://127.0.0.1:5000/".to_owned(),
        node_id: Some(NODE),
        work_concurrency: concurrency,
        work_batch_size: batch_size,
        cpu_threads: Some(1),
        compute_backend: BackendChoice::Cpu,
        poll_interval_ms: 10,
        max_backoff_ms: 100,
        request_timeout_secs: 2,
    }
}

fn cpu() -> SelectedBackend {
    SelectedBackend { kind: BackendKind::Cpu, gpu_name: None }
}

fn worker(concurrency: usize, batch_size: usize) -> Worker {
    Worker::new(config(concurrency, batch_size), NODE, cpu()).unwrap_or_else(|_| panic!())
}

fn accepted() -> RunEvent {
    RunEvent::Registered {
        outcome: Ok(RegistrationReceipt { accepted: true, message: "ok".to_owned() }),
        stopping: false,
    }
}

fn claimed(count: usize) -> RunEvent {
    RunEvent::Claimed { claim: Claim::Units(units(count)), stopping: false }
}

fn claimed_one(unit: Option<WorkUnit>) -> RunEvent {
    RunEvent::Claimed { claim: Claim::Unit(unit), stopping: false }
}

fn claim_failed() -> RunEvent {
    RunEvent::Claimed { claim: Claim::Failed, stopping: false }
}

fn registered(worker: &Worker) -> Run {
    let (run, action) = worker.run();
    assert!(matches!(action.next, Next::Register));
    let (run, action) = run.handle(accepted());
    assert!(matches!(action.next, Next::AwaitPermit));
    run
}

fn unit(id: &str) -> WorkUnit {
    WorkUnit {
        id: id.to_owned(),
        project_id: "p".to_owned(),
        workload_id: LOMB_SCARGLE_V1.to_owned(),
        dataset_id: "d".to_owned(),
        payload: Some(NestedPayload {
            lomb: Ok(LombPayload {
                start_frequency: bits(1.0),
                frequency_step: bits(1.0),
                frequency_count: 1,
                frequency_start_index: 0,
            }),
            box_period: Err("missing field `phaseBinCount`".to_owned()),
        }),
        start_frequency: None,
        frequency_step: None,
        frequency_count: None,
        frequency_start_index: None,
    }
}

fn units(count: usize) -> Vec<WorkUnit> {
    (1..=count).map(|number| unit(&format!("w{}", number))).collect()
}

/// Answers everything that a batch asks for with success, up to the point where
/// it asks for its next submission.
fn drive_to_submission(mut run: BatchRun, mut action: BatchAction, fetches: &mut usize) -> (BatchRun, BatchAction) {
    loop {
        let event = match action {
            BatchAction::StartClock | BatchAction::ReadClock => {
                BatchEvent::Clock { elapsed: seconds(0.0) }
            }
            BatchAction::Fetch => {
                *fetches += 1;
                BatchEvent::Fetched { outcome: Ok(()), elapsed: seconds(0.5) }
            }
            BatchAction::Compute(_) => BatchEvent::Computed {
                computation: Computation::Lomb(Ok(LombResult {
                    best_frequency: bits(1.0),
                    best_period_days: bits(1.0),
                    best_power: bits(0.11111111),
                    best_frequency_index: 0,
                })),
                seconds: seconds(0.25),
                elapsed: seconds(0.75),
            },
            BatchAction::Encode(_) => BatchEvent::Encoded { body: b"{}".to_vec() },
            _ => return (run, action),
        };
        (run, action) = run.handle(event);
    }
}

#[test]
fn shutdown_drains_an_entire_active_batch() {
    let worker = worker(1, 2);
    let (run, action) = registered(&worker).handle(RunEvent::Permitted);
    assert!(matches!(action.next, Next::ClaimBatch(2)));
    let (run, action) = run.handle(claimed(2));
    assert!(matches!(action.next, Next::AwaitPermit));

    let mut fetches = 0;
    let (batch, first) =
        process_batch(worker.setup().node_id.clone(), action.launch.unwrap(), 100, BackendKind::Cpu);
    let (batch, first) = drive_to_submission(batch, first, &mut fetches);
    assert!(matches!(first, BatchAction::Submit));
    assert_eq!(batch.unit().unwrap().id, "w1");

    // The stop does not end the run while the batch is active.
    let (run, action) = run.handle(RunEvent::StopChanged);
    assert!(matches!(action.next, Next::Drain));
    assert_eq!(run.state().phase, Phase::Draining);

    let receipt = || Ok(ResultReceipt { accepted: true, message: None });
    let (batch, action) = batch.handle(BatchEvent::Submitted { reply: receipt() });
    let (batch, second) = drive_to_submission(batch, action, &mut fetches);
    assert!(matches!(second, BatchAction::Submit));
    assert_eq!(batch.unit().unwrap().id, "w2");
    let (_, end) = batch.handle(BatchEvent::Submitted { reply: receipt() });
    assert!(matches!(end, BatchAction::Finish));
    assert_eq!(fetches, 1);

    let (run, action) = run.handle(RunEvent::BatchDone);
    assert!(matches!(action.next, Next::Exit));
    assert_eq!(run.state().phase, Phase::Done);
}

#[test]
fn a_worker_is_set_up_from_valid_settings_only() {
    let worker = worker(1, 1);
    assert_eq!(worker.setup().node_id, "00000000-0000-4000-8000-000000000001");
    assert_eq!(worker.setup().client.base, "http://127.0.0.1:5000/");
    assert_eq!(worker.setup().client.timeout, 2);
    assert!(matches!(
        Worker::new(config(0, 1), NODE, cpu()),
        Err(WorkerError::Config(ConfigError::NoConcurrency))
    ));
    let mut nowhere = config(1, 1);
    nowhere.coordinator_url = "nowhere".to_owned();
    assert!(matches!(
        Worker::new(nowhere, NODE, cpu()),
        Err(WorkerError::Request(RequestError::Url(_)))
    ));
}

#[test]
fn a_worker_introduces_itself_with_the_selected_backend() {
    let radeon =
        SelectedBackend { kind: BackendKind::Vulkan, gpu_name: Some("Radeon".to_owned()) };
    let gpu = Worker::new(config(1, 1), NODE, radeon).unwrap_or_else(|_| panic!());
    let registration = gpu.registration("x86_64", 16, bits(31.5));
    let capabilities = &registration.capabilities;
    assert_eq!(registration.node_id, "00000000-0000-4000-8000-000000000001");
    assert_eq!(capabilities.platform, "linux");
    assert_eq!(capabilities.hardware_identifier, "x86_64 Linux CPU");
    assert_eq!(capabilities.gpu_name, "Radeon");
    assert_eq!(capabilities.processor_count, 16);
    assert_eq!(capabilities.memory_gb, bits(31.5));
    assert_eq!(capabilities.compute_backends.len(), 1);
    assert_eq!(capabilities.compute_backends[0].id, "vulkan");
    assert_eq!(capabilities.workloads.len(), 1);
    assert_eq!(capabilities.workloads[0].workload_id, LOMB_SCARGLE_V1);
    assert_eq!(capabilities.workloads[0].execution_backends[0].id, "vulkan");
    assert_eq!(capabilities.workloads[0].validator_id, None);
    let request = gpu.setup().client.register(&registration).unwrap_or_else(|_| panic!());
    assert!(matches!(request.body, Body::Json(Json::Object(_))));
    assert_eq!(worker(1, 1).registration("arm", 1, bits(0.0)).capabilities.gpu_name, "none");
}

#[test]
fn threads_are_configured_or_those_of_the_machine() {
    assert_eq!(compute_threads(&config(1, 1), Some(8)), 1);
    let mut free = config(1, 1);
    free.cpu_threads = None;
    assert_eq!(compute_threads(&free, Some(8)), 8);
    assert_eq!(compute_threads(&free, None), 1);
}

fn failure(action: RunAction) -> String {
    match action.next {
        Next::Fail(reason) => reason,
        _ => panic!(),
    }
}

#[test]
fn a_refused_registration_ends_the_run() {
    let worker = worker(1, 1);
    let (run, _) = worker.run();
    let rejection = RegistrationReceipt { accepted: false, message: "banned".to_owned() };
    let (ended, action) =
        run.handle(RunEvent::Registered { outcome: Ok(rejection), stopping: false });
    assert_eq!(failure(action), "registration rejected: banned");
    assert_eq!(ended.state().phase, Phase::Failed);
    let (_, action) =
        run.handle(RunEvent::Registered { outcome: Err("refused".to_owned()), stopping: false });
    assert_eq!(failure(action), "refused");
}

#[test]
fn claims_back_off_and_recover() {
    let mut run = registered(&worker(1, 1));
    let mut pauses = Vec::new();
    for jitter in [2, 0, 10, 0, 25, 0] {
        let (claiming, action) = run.handle(RunEvent::Permitted);
        assert!(matches!(action.next, Next::ClaimOne));
        let (pausing, action) = claiming.handle_with(claim_failed(), jitter);
        match action.next {
            Next::Pause(ms) => pauses.push(ms),
            _ => panic!(),
        }
        assert_eq!(pausing.state().held, 0);
        (run, _) = pausing.handle(RunEvent::Woke { stopping: false });
    }
    assert_eq!(pauses, vec![12, 20, 50, 80, 100, 100]);

    let (claiming, _) = run.handle(RunEvent::Permitted);
    let (pausing, action) = claiming.handle(claimed_one(None));
    assert!(matches!(action.next, Next::Pause(10)));
    assert!(action.launch.is_none());
    assert_eq!(pausing.state().backoff, 100);
    let (run, _) = pausing.handle(RunEvent::Woke { stopping: false });
    let (claiming, _) = run.handle(RunEvent::Permitted);
    let (running, action) = claiming.handle(claimed_one(Some(unit("w"))));
    assert_eq!(action.launch.map(|units| units.len()), Some(1));
    assert_eq!(running.state().backoff, 10);
}

#[test]
fn a_failed_claim_pauses_for_up_to_a_quarter_more() {
    let mut drawn = Vec::new();
    let mut settings = config(1, 1);
    settings.poll_interval_ms = 100;
    settings.max_backoff_ms = 1000;
    let worker = Worker::new(settings, NODE, cpu()).unwrap_or_else(|_| panic!());
    for _ in 0..200 {
        let run = registered(&worker);
        let (claiming, _) = run.handle(RunEvent::Permitted);
        match claiming.handle(claim_failed()).1.next {
            Next::Pause(ms) => drawn.push(ms),
            _ => panic!(),
        }
    }
    assert!(drawn.iter().all(|ms| (100..=125).contains(ms)));
    assert!(drawn.iter().any(|ms| *ms != drawn[0]));
}

#[test]
fn concurrency_bounds_the_batches_under_way() {
    let mut run = registered(&worker(2, 4));
    for _ in 0..2 {
        let (claiming, action) = run.handle(RunEvent::Permitted);
        assert!(matches!(action.next, Next::ClaimBatch(4)));
        (run, _) = claiming.handle(claimed(3));
    }
    assert_eq!(run.state().held, 2);
    let (same, action) = run.handle(RunEvent::Permitted);
    assert!(matches!(action.next, Next::Idle));
    assert_eq!(same.state(), run.state());
    let (freed, action) = run.handle(RunEvent::BatchDone);
    assert!(matches!(action.next, Next::Idle));
    let (claiming, _) = freed.handle(RunEvent::Permitted);
    assert_eq!(claiming.state().phase, Phase::Claiming);
    assert_eq!(claiming.state().held, 2);
}

#[test]
fn a_stop_is_obeyed_at_every_turn() {
    let worker = worker(1, 1);
    let (run, _) = worker.run();
    let receipt = RegistrationReceipt { accepted: true, message: String::new() };
    let (_, action) = run.handle(RunEvent::Registered { outcome: Ok(receipt), stopping: true });
    assert!(matches!(action.next, Next::Exit));

    let (_, action) = registered(&worker).handle(RunEvent::StopChanged);
    assert!(matches!(action.next, Next::Exit));

    let (claiming, _) = registered(&worker).handle(RunEvent::Permitted);
    let (_, action) = claiming.handle(RunEvent::StopChanged);
    assert!(matches!(action.next, Next::Idle));
    let (draining, action) =
        claiming.handle(RunEvent::Claimed { claim: Claim::Unit(Some(unit("w"))), stopping: true });
    assert_eq!(action.launch.map(|units| units.len()), Some(1));
    assert!(matches!(action.next, Next::Drain));
    assert!(matches!(draining.handle(RunEvent::Permitted).1.next, Next::Idle));
    assert!(matches!(draining.handle(RunEvent::BatchDone).1.next, Next::Exit));

    let (pausing, _) = claiming.handle(claimed_one(None));
    let (_, action) = pausing.handle(RunEvent::Woke { stopping: true });
    assert!(matches!(action.next, Next::Exit));

    let (_, action) = registered(&worker).handle(RunEvent::StopLost("channel closed".to_owned()));
    assert_eq!(failure(action), "channel closed");
}

#[test]
fn total_memory_is_the_second_field_of_its_line() {
    let text = "MemFree:  1 kB\nMemTotal:       32768000 kB\r\nMemTotal: 7 kB\n";
    assert_eq!(mem_total(text), Some("32768000"));
    assert_eq!(mem_total("MemTotal:\t5"), Some("5"));
    assert_eq!(mem_total("MemTotal:5 kB"), Some("kB"));
    assert_eq!(mem_total("MemTotal:\nMemTotal: 5 kB"), None);
    assert_eq!(mem_total(" MemTotal: 5 kB"), None);
    assert_eq!(mem_total(""), None);
    assert_eq!(second_field("  one\u{2003}two three"), Some("two"));
    assert_eq!(second_field("one"), None);
}

#[test]
fn a_pause_after_a_failed_claim_never_exceeds_the_maximum() {
    let mut patient = config(1, 1);
    patient.poll_interval_ms = u64::MAX;
    patient.max_backoff_ms = 100;
    let worker = Worker::new(patient, NODE, cpu()).unwrap_or_else(|_| panic!());
    let (claiming, _) = registered(&worker).handle(RunEvent::Permitted);
    let (pausing, action) = claiming.handle(claim_failed());
    assert!(matches!(action.next, Next::Pause(100)));
    assert_eq!(pausing.state().backoff, 100);
}

#[test]
fn a_claim_of_one_unit_brings_no_more() {
    let (claiming, action) = registered(&worker(1, 1)).handle(RunEvent::Permitted);
    assert!(matches!(action.next, Next::ClaimOne));
    let (same, action) = claiming.handle(claimed(2));
    assert!(action.launch.is_none());
    assert!(matches!(action.next, Next::Idle));
    assert_eq!(same.state(), claiming.state());
    let (claiming, action) = registered(&worker(1, 2)).handle(RunEvent::Permitted);
    assert!(matches!(action.next, Next::ClaimBatch(2)));
    let (same, action) = claiming.handle(claimed_one(Some(unit("w"))));
    assert!(action.launch.is_none());
    assert_eq!(same.state(), claiming.state());
}

#[test]
fn failed_claims_keep_a_run_going() {
    let mut run = registered(&worker(1, 1));
    for _ in 0..20 {
        let (claiming, _) = run.handle(RunEvent::Permitted);
        let (pausing, _) = claiming.handle(claim_failed());
        (run, _) = pausing.handle(RunEvent::Woke { stopping: false });
        assert_eq!(run.state().phase, Phase::AwaitingPermit);
    }
}
