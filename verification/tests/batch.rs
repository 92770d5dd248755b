use openstar_linux_worker::backend::{BackendError, BackendKind};
use openstar_linux_worker::batch::{
    backend_failure_kind, fetch_failure_kind, is_homogeneous, process, process_batch, BatchAction,
    BatchEvent, BatchRun, Computation, Job,
};
use openstar_linux_worker::box_period_search::BoxPeriodError;
use openstar_linux_worker::client::{
    dataset_reply, refusal, submit_reply, Body, Coordinator, RequestError, TransportError,
};
use openstar_linux_worker::float_bits::{Bits32, Bits64};
use openstar_linux_worker::kernel::ComputeError;
use openstar_linux_worker::protocol::{
    BoxPeriodPayload, BoxPeriodResult, FailureKind, LombPayload, LombResult, NestedPayload,
    ResultReceipt, ResultStatus, WorkResult, WorkResultPayload, WorkUnit, BOX_PERIOD_SEARCH_V1,
    LOMB_SCARGLE_V1,
};
use openstar_linux_worker::retry::{
    capped, doubled, extended, fetch_with_retry, submit_with_retry, FetchRetry,
};

fn bits(value: f32) -> Bits32 {
    Bits32 { bits: value.to_bits() }
}

fn seconds(value: f64) -> Bits64 {
    Bits64 { bits: value.to_bits() }
}

fn status(code: u16) -> TransportError {
    TransportError {
        timeout: false,
        connect: false,
        request: false,
        status: Some(code),
        message: "boom".to_owned(),
    }
}

fn unavailable() -> RequestError {
    refusal(dataset_reply(503), status(503))
}

fn test_work(id: &str, project: &str, dataset: &str) -> WorkUnit {
    WorkUnit {
        id: id.to_owned(),
        project_id: project.to_owned(),
        workload_id: LOMB_SCARGLE_V1.to_owned(),
        dataset_id: dataset.to_owned(),
        payload: Some(NestedPayload {
            lomb: Ok(LombPayload {
                start_frequency: bits(1.0),
                frequency_step: bits(1.0),
                frequency_count: 1,
                frequency_start_index: 0,
            }),
            box_period: Err("missing field `phaseBinCount`".to_owned()),
        }),
        start_frequency: None,
        frequency_step: None,
        frequency_count: None,
        frequency_start_index: None,
    }
}

fn lomb_result() -> LombResult {
    LombResult {
        best_frequency: bits(1.0),
        best_period_days: bits(1.0),
        best_power: bits(0.11111111),
        best_frequency_index: 0,
    }
}

fn accepted() -> Result<ResultReceipt, RequestError> {
    Ok(ResultReceipt { accepted: true, message: None })
}

/// What a coordinator saw of a batch.
#[derive(Default)]
struct Log {
    dataset_requests: Vec<String>,
    submissions: Vec<(String, Vec<u8>)>,
    reports: Vec<WorkResult>,
    waits: Vec<u64>,
    clocks: Vec<&'static str>,
}

/// Drives a batch to its end. Replies to dataset requests and submissions are
/// taken from the lists, and are successes once these are used up.
fn drive(
    (mut run, mut action): (BatchRun, BatchAction),
    mut datasets: Vec<RequestError>,
    mut receipts: Vec<RequestError>,
) -> Log {
    let client = Coordinator::new("http://127.0.0.1:5000/", 1).unwrap_or_else(|_| panic!());
    let mut log = Log::default();
    datasets.reverse();
    receipts.reverse();
    loop {
        let event = match action {
            BatchAction::StartClock => {
                log.clocks.push("start");
                BatchEvent::Clock { elapsed: seconds(0.0) }
            }
            BatchAction::ReadClock => {
                log.clocks.push("read");
                BatchEvent::Clock { elapsed: seconds(0.5) }
            }
            BatchAction::Fetch => {
                let request =
                    client.dataset(run.unit().unwrap()).unwrap_or_else(|_| panic!());
                log.dataset_requests.push(request.url);
                BatchEvent::Fetched {
                    outcome: datasets.pop().map_or(Ok(()), Err),
                    elapsed: seconds(0.5),
                }
            }
            BatchAction::Wait(ms) => {
                log.waits.push(ms);
                BatchEvent::Waited
            }
            BatchAction::Compute(job) => BatchEvent::Computed {
                computation: match job {
                    Job::Lomb(_) => Computation::Lomb(Ok(lomb_result())),
                    Job::BoxPeriod(_) => {
                        Computation::BoxPeriod(Err(BoxPeriodError::NoValidWindow))
                    }
                },
                seconds: seconds(0.25),
                elapsed: seconds(0.75),
            },
            BatchAction::Encode(report) => {
                let body = format!("{{\"workUnitID\":\"{}\"}}", report.work_unit_id);
                log.reports.push(report);
                BatchEvent::Encoded { body: body.into_bytes() }
            }
            BatchAction::Submit => {
                let body = run.body().unwrap().clone();
                let request = client
                    .submit_bytes(&run.unit().unwrap().id, &body)
                    .unwrap_or_else(|_| panic!());
                let bytes = match request.body {
                    Body::Bytes(bytes) => bytes,
                    _ => panic!(),
                };
                log.submissions.push((request.url, bytes));
                BatchEvent::Submitted { reply: receipts.pop().map_or_else(accepted, Err) }
            }
            BatchAction::Idle => panic!(),
            BatchAction::Finish => return log,
        };
        (run, action) = run.handle(event);
    }
}

fn start(units: Vec<WorkUnit>, max_backoff: u64) -> (BatchRun, BatchAction) {
    process_batch("n".to_owned(), units, max_backoff, BackendKind::Cpu)
}

#[test]
fn backend_runtime_failure_is_not_invalid_input() {
    let error = BackendError::Execution("device lost".to_owned());
    assert_eq!(backend_failure_kind(&error), FailureKind::Execution);
    let error = BackendError::InvalidInput(ComputeError::InvalidCount);
    assert_eq!(backend_failure_kind(&error), FailureKind::InvalidInput);
}

#[test]
fn transient_submission_reuses_identical_bytes() {
    let (run, action) = start(vec![test_work("w", "p", "d")], 500);
    let body = br#"{"stable":"body"}"#.to_vec();
    let (mut run, mut action) = (run, action);
    let mut submitted: Vec<Vec<u8>> = Vec::new();
    let mut replies = vec![accepted(), Err(refusal(submit_reply(503), status(503)))];
    loop {
        let event = match action {
            BatchAction::StartClock | BatchAction::ReadClock => {
                BatchEvent::Clock { elapsed: seconds(0.0) }
            }
            BatchAction::Fetch => BatchEvent::Fetched { outcome: Ok(()), elapsed: seconds(0.0) },
            BatchAction::Compute(_) => BatchEvent::Computed {
                computation: Computation::Lomb(Ok(lomb_result())),
                seconds: seconds(0.0),
                elapsed: seconds(0.0),
            },
            BatchAction::Encode(_) => BatchEvent::Encoded { body: body.clone() },
            BatchAction::Submit => {
                submitted.push(run.body().unwrap().clone());
                BatchEvent::Submitted { reply: replies.pop().unwrap() }
            }
            BatchAction::Wait(ms) => {
                assert_eq!(ms, 500);
                BatchEvent::Waited
            }
            BatchAction::Idle => panic!(),
            BatchAction::Finish => break,
        };
        (run, action) = run.handle(event);
    }
    assert_eq!(submitted, vec![body.clone(), body]);
}

#[test]
fn permanent_conflict_is_not_retried() {
    let conflict = refusal(submit_reply(409), status(409));
    let log = drive(start(vec![test_work("w", "p", "d")], 500), vec![], vec![conflict]);
    assert_eq!(log.submissions.len(), 1);
    assert_eq!(log.submissions[0].0, "http://127.0.0.1:5000/v1/work/w/result");
}

#[test]
fn unsupported_workload_reports_failure_without_dataset_fetch() {
    let work = WorkUnit {
        workload_id: "other".to_owned(),
        payload: None,
        ..test_work("w", "p", "d")
    };
    let log = drive(process("n".to_owned(), work, 1, BackendKind::Cpu), vec![], vec![]);
    assert!(log.dataset_requests.is_empty());
    assert_eq!(log.submissions.len(), 1);
    let report = &log.reports[0];
    assert_eq!(report.work_unit_id, "w");
    assert_eq!(report.node_id, "n");
    assert_eq!(report.failure_kind.unwrap().name(), "unsupported-workload");
    assert_eq!(report.error_message.as_deref(), Some("unsupported workload: other"));
}

#[test]
fn homogeneous_batch_fetches_once_and_submits_each_unit() {
    let units = vec![test_work("w1", "p", "d"), test_work("w2", "p", "d")];
    assert!(is_homogeneous(&units));
    let log = drive(start(units, 1), vec![], vec![]);
    assert_eq!(log.dataset_requests, vec!["http://127.0.0.1:5000/v1/projects/p/datasets/d"]);
    let urls: Vec<&str> = log.submissions.iter().map(|(url, _)| url.as_str()).collect();
    assert_eq!(
        urls,
        vec![
            "http://127.0.0.1:5000/v1/work/w1/result",
            "http://127.0.0.1:5000/v1/work/w2/result"
        ]
    );
    assert_eq!(log.submissions[0].1, br#"{"workUnitID":"w1"}"#.to_vec());
    assert_eq!(log.submissions[1].1, br#"{"workUnitID":"w2"}"#.to_vec());
    assert_eq!(log.reports[0].status, ResultStatus::Completed);
    assert_eq!(log.reports[1].best_power, Some(bits(0.11111111)));
}

#[test]
fn non_homogeneous_batch_uses_individual_dataset_processing() {
    let units = vec![test_work("w1", "p", "d1"), test_work("w2", "p", "d2")];
    assert!(!is_homogeneous(&units));
    let log = drive(start(units, 1), vec![], vec![]);
    assert_eq!(
        log.dataset_requests,
        vec![
            "http://127.0.0.1:5000/v1/projects/p/datasets/d1",
            "http://127.0.0.1:5000/v1/projects/p/datasets/d2"
        ]
    );
    assert_eq!(log.submissions.len(), 2);
    assert_eq!(log.clocks, vec!["start", "start"]);
}

#[test]
fn the_shared_download_is_charged_to_the_first_unit() {
    let units = (1..=3).map(|i| test_work(&format!("w{}", i), "p", "d")).collect();
    let log = drive(start(units, 1), vec![], vec![]);
    assert_eq!(log.clocks, vec!["start", "read", "start", "start"]);
}

#[test]
fn a_failed_shared_download_leaves_each_unit_to_itself() {
    let units = vec![test_work("w1", "p", "d"), test_work("w2", "p", "d")];
    let failures = (0..7).map(|_| unavailable()).collect();
    let log = drive(start(units, 30_000), failures, vec![]);
    // Five shared requests, then three for the first unit and one for the second.
    assert_eq!(log.dataset_requests.len(), 9);
    assert_eq!(log.waits, vec![250, 500, 1000, 2000, 250, 500]);
    assert_eq!(log.clocks, vec!["start", "start", "start"]);
    assert_eq!(log.reports.len(), 2);
    assert!(log.reports.iter().all(|report| report.status == ResultStatus::Completed));
}

#[test]
fn a_dataset_that_cannot_be_had_is_reported() {
    let transport = (0..10).map(|_| unavailable()).collect();
    let log = drive(start(vec![test_work("w", "p", "d")], 1), transport, vec![]);
    assert_eq!(log.dataset_requests.len(), 10);
    assert_eq!(log.reports[0].failure_kind, Some(FailureKind::TransportUnavailable));
    assert_eq!(
        log.reports[0].error_message.as_deref(),
        Some("coordinator transport error: boom")
    );

    let refused = (0..2).map(|_| refusal(dataset_reply(404), status(404))).collect();
    let log = drive(start(vec![test_work("w", "p", "d")], 1), refused, vec![]);
    assert_eq!(log.dataset_requests.len(), 2);
    assert_eq!(log.reports[0].failure_kind, Some(FailureKind::InvalidInput));
    assert_eq!(
        log.reports[0].error_message.as_deref(),
        Some("coordinator rejected request with HTTP 404 Not Found")
    );
    assert_eq!(
        fetch_failure_kind(&RequestError::InvalidResponse("eof".to_owned())),
        FailureKind::InvalidInput
    );
    assert_eq!(
        fetch_failure_kind(&RequestError::Url("bad".to_owned())),
        FailureKind::TransportUnavailable
    );
}

#[test]
fn a_payload_that_makes_no_sense_is_reported() {
    let mut work = test_work("w", "p", "d");
    work.payload = None;
    let log = drive(start(vec![work], 1), vec![], vec![]);
    assert_eq!(log.dataset_requests.len(), 1);
    assert_eq!(log.reports[0].failure_kind, Some(FailureKind::InvalidInput));
    assert_eq!(log.reports[0].error_message.as_deref(), Some("missing startFrequency"));
}

#[test]
fn an_empty_batch_is_done_at_once() {
    let log = drive(start(vec![], 1), vec![], vec![]);
    assert!(log.reports.is_empty() && log.clocks.is_empty());
}

fn at_compute(workload: &str) -> BatchRun {
    let mut work = test_work("w", "p", "d");
    work.workload_id = workload.to_owned();
    if workload == BOX_PERIOD_SEARCH_V1 {
        work.payload = Some(NestedPayload {
            lomb: Err("unknown".to_owned()),
            box_period: Ok(BoxPeriodPayload {
                start_frequency: bits(0.4),
                frequency_step: bits(0.05),
                frequency_count: 5,
                frequency_start_index: 20,
                phase_bin_count: 20,
                duration_fractions: vec![bits(0.1)],
                minimum_in_box_samples: 4,
                minimum_out_of_box_samples: 20,
            }),
        });
    }
    let (mut run, mut action) =
        process_batch("n".to_owned(), vec![work], 1, BackendKind::Vulkan);
    loop {
        let event = match action {
            BatchAction::StartClock | BatchAction::ReadClock => {
                BatchEvent::Clock { elapsed: seconds(0.0) }
            }
            BatchAction::Fetch => BatchEvent::Fetched { outcome: Ok(()), elapsed: seconds(0.0) },
            BatchAction::Compute(Job::Lomb(payload)) => {
                assert_eq!(workload, LOMB_SCARGLE_V1);
                assert_eq!(payload.frequency_count, 1);
                return run;
            }
            BatchAction::Compute(Job::BoxPeriod(payload)) => {
                assert_eq!(workload, BOX_PERIOD_SEARCH_V1);
                assert_eq!(payload.duration_fractions, vec![bits(0.1)]);
                return run;
            }
            _ => panic!(),
        };
        (run, action) = run.handle(event);
    }
}

fn report_of(run: BatchRun, computation: Computation) -> WorkResult {
    let (_, action) = run.handle(BatchEvent::Computed {
        computation,
        seconds: seconds(0.25),
        elapsed: seconds(0.75),
    });
    match action {
        BatchAction::Encode(report) => report,
        _ => panic!(),
    }
}

#[test]
fn computations_are_reported_by_how_they_ended() {
    let report = report_of(at_compute(LOMB_SCARGLE_V1), Computation::Lomb(Ok(lomb_result())));
    assert_eq!(report.duration, seconds(0.75));
    match report.payload {
        Some(WorkResultPayload::Lomb(payload)) => {
            assert_eq!(payload.cpu_duration_seconds, None);
            assert_eq!(payload.total_workload_duration_seconds, seconds(0.75));
        }
        _ => panic!(),
    }
    let lost = BackendError::Execution("device lost".to_owned());
    let report = report_of(at_compute(LOMB_SCARGLE_V1), Computation::Lomb(Err(lost)));
    assert_eq!(report.failure_kind, Some(FailureKind::Execution));
    assert_eq!(report.error_message.as_deref(), Some("device lost"));
    let bad = BackendError::InvalidInput(ComputeError::NonFinite);
    let report = report_of(at_compute(LOMB_SCARGLE_V1), Computation::Lomb(Err(bad)));
    assert_eq!(report.failure_kind, Some(FailureKind::InvalidInput));
    let report = report_of(
        at_compute(LOMB_SCARGLE_V1),
        Computation::Aborted("task 3 panicked".to_owned()),
    );
    assert_eq!(report.failure_kind, Some(FailureKind::Execution));
    assert_eq!(report.error_message.as_deref(), Some("task 3 panicked"));
}

#[test]
fn box_searches_are_dispatched_to_the_cpu() {
    let result = BoxPeriodResult {
        best_frequency: bits(0.5),
        best_score: bits(8.714213),
        best_phase: bits(0.0),
        best_duration_fraction: bits(0.15),
        best_frequency_index: 22,
        best_duration_index: 1,
        best_phase_bin: 0,
        in_box_samples: 20,
        out_of_box_samples: 60,
    };
    let report =
        report_of(at_compute(BOX_PERIOD_SEARCH_V1), Computation::BoxPeriod(Ok(result)));
    match report.payload {
        Some(WorkResultPayload::BoxPeriod(payload)) => {
            assert_eq!(payload.cpu_duration_seconds, seconds(0.25));
            assert_eq!(payload.best_frequency_index, 22);
        }
        _ => panic!(),
    }
    let report = report_of(
        at_compute(BOX_PERIOD_SEARCH_V1),
        Computation::BoxPeriod(Err(BoxPeriodError::NoValidWindow)),
    );
    assert_eq!(report.failure_kind, Some(FailureKind::InvalidInput));
    assert_eq!(
        report.error_message.as_deref(),
        Some("no box window satisfied the sample-count gates")
    );
}

#[test]
fn unawaited_events_change_nothing() {
    let (run, _) = start(vec![test_work("w", "p", "d")], 1);
    let (run, action) = run.handle(BatchEvent::Waited);
    assert!(matches!(action, BatchAction::Idle));
    assert_eq!(run.unit().unwrap().id, "w");
    assert!(run.body().is_none());
    let (_, action) = run.handle(BatchEvent::Clock { elapsed: seconds(0.0) });
    assert!(matches!(action, BatchAction::Fetch));
}

#[test]
fn submissions_are_repeated_with_growing_delays() {
    let failures = (0..6).map(|_| refusal(submit_reply(502), status(502))).collect();
    let log = drive(start(vec![test_work("w", "p", "d")], 3000), vec![], failures);
    assert_eq!(log.waits, vec![500, 1000, 2000, 3000, 3000, 3000]);
    assert_eq!(log.submissions.len(), 7);
    assert!(log.submissions.iter().all(|submission| *submission == log.submissions[0]));
}

#[test]
fn retries_follow_the_schedule() {
    assert_eq!(doubled(3, 10), 6);
    assert_eq!(doubled(6, 10), 10);
    assert_eq!(doubled(u64::MAX, u64::MAX), u64::MAX);
    let mut retry = FetchRetry::start();
    let mut waits = Vec::new();
    while let Some((wait, next)) = fetch_with_retry(retry, true, 600) {
        waits.push(wait);
        retry = next;
    }
    assert_eq!(waits, vec![250, 500, 600, 600]);
    assert_eq!(retry.attempt, 4);
    assert_eq!(fetch_with_retry(FetchRetry::start(), false, 600), None);
    assert_eq!(submit_with_retry(500, true, 100), Some((100, 100)));
    assert_eq!(submit_with_retry(500, true, 700), Some((500, 700)));
    assert_eq!(submit_with_retry(500, false, 700), None);
    assert_eq!(capped(500, 100), 100);
    assert_eq!(capped(100, 500), 100);
    assert_eq!(extended(80, 20, 125), 100);
    assert_eq!(extended(100, 25, 100), 100);
    assert_eq!(extended(u64::MAX, u64::MAX, u64::MAX), u64::MAX);
}

#[test]
fn the_maximum_is_the_ceiling_of_every_wait() {
    let failures = (0..2).map(|_| refusal(submit_reply(503), status(503))).collect();
    let unavailable = (0..3).map(|_| unavailable()).collect();
    let log = drive(start(vec![test_work("w", "p", "d")], 100), unavailable, failures);
    assert_eq!(log.waits, vec![100, 100, 100, 100, 100]);
    assert_eq!(log.dataset_requests.len(), 4);
    assert_eq!(log.submissions.len(), 3);
}
