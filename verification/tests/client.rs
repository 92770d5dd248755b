use openstar_linux_worker::backend::BackendKind;
use openstar_linux_worker::batch::{process, BatchAction, BatchEvent, BatchRun};
use openstar_linux_worker::client::{
    claim_reply, dataset_outcome, dataset_reply, dataset_undecoded, receipt_undecoded, refusal,
    register_reply, submit_outcome, submit_reply, Body, Coordinator, Exchange, Method, Reply,
    Request, RequestError, TransportError,
};
use openstar_linux_worker::float_bits::{Bits32, Bits64};
use openstar_linux_worker::json::Json;
use openstar_linux_worker::kernel::{execute, Derived, GridPoint};
use openstar_linux_worker::protocol::{
    Backend, Capabilities, Dataset, ExecutionDuration, LombPayload, NestedPayload, Registration,
    ResultReceipt, WorkResult, WorkUnit, WorkloadCapability, LOMB_SCARGLE_V1,
};
use serde_json::Value;

const NODE: &str = "00000000-0000-4000-8000-000000000001";

fn bits(value: f32) -> Bits32 {
    Bits32 { bits: value.to_bits() }
}

fn value(json: &Json) -> Value {
    match json {
        Json::Null => Value::Null,
        Json::Count(count) => Value::from(*count),
        Json::Number32(number) => {
            parse(&serde_json::to_string(&f32::from_bits(number.bits)).unwrap())
        }
        Json::Number64(number) => Value::from(f64::from_bits(number.bits)),
        Json::Text(text) => Value::from(text.as_str()),
        Json::Array(items) => Value::Array(items.iter().map(value).collect()),
        Json::Object(fields) => Value::Object(
            fields.iter().map(|field| (field.name.to_owned(), value(&field.value))).collect(),
        ),
    }
}

fn parse(text: &str) -> Value {
    serde_json::from_str(text).unwrap()
}

fn client() -> Coordinator {
    Coordinator::new("http://127.0.0.1:5000/", 1).unwrap_or_else(|_| panic!())
}

fn sent(request: Result<Request, RequestError>, method: Method, url: &str) -> Value {
    let request = request.unwrap_or_else(|_| panic!());
    assert_eq!(request.method, method);
    assert_eq!(request.url, url);
    match request.body {
        Body::Json(json) => value(&json),
        Body::Bytes(bytes) => serde_json::from_slice(&bytes).unwrap(),
        Body::Empty => Value::Null,
    }
}

fn transport(status: Option<u16>) -> TransportError {
    TransportError {
        timeout: false,
        connect: false,
        request: false,
        status,
        message: "boom".to_owned(),
    }
}

fn unit(payload: Option<NestedPayload>) -> WorkUnit {
    WorkUnit {
        id: "w".to_owned(),
        project_id: "p".to_owned(),
        workload_id: LOMB_SCARGLE_V1.to_owned(),
        dataset_id: "d".to_owned(),
        payload,
        start_frequency: None,
        frequency_step: None,
        frequency_count: None,
        frequency_start_index: None,
    }
}

#[test]
fn claim_shapes_match_the_selected_mode() {
    let client = client();
    assert_eq!(
        sent(client.claim("n"), Method::Post, "http://127.0.0.1:5000/v1/work/claim"),
        parse(r#"{"nodeID":"n"}"#)
    );
    assert_eq!(claim_reply(204), Reply::Nothing);
    assert_eq!(
        sent(client.claim_batch("n", 2), Method::Post, "http://127.0.0.1:5000/v1/work/claim"),
        parse(r#"{"nodeID":"n","maxWorkUnits":2}"#)
    );
    assert_eq!(claim_reply(200), Reply::Read);
}

/// Takes a unit that cannot be computed to its first submission.
fn at_submission(work: WorkUnit) -> (BatchRun, BatchAction) {
    let zero = Bits64 { bits: 0 };
    let (run, _) = process("n".to_owned(), work, 500, BackendKind::Cpu);
    let (run, _) = run.handle(BatchEvent::Clock { elapsed: zero });
    let (run, action) = run.handle(BatchEvent::Fetched { outcome: Ok(()), elapsed: zero });
    assert!(matches!(action, BatchAction::Encode(_)));
    run.handle(BatchEvent::Encoded { body: b"{}".to_vec() })
}

#[test]
fn accepted_false_is_still_transport_success_and_conflict_is_permanent() {
    let client = client();
    assert_eq!(
        sent(
            client.submit_bytes("w", b"{}"),
            Method::Post,
            "http://127.0.0.1:5000/v1/work/w/result"
        ),
        parse("{}")
    );
    assert_eq!(submit_reply(200), Reply::Read);
    let reply = parse(r#"{"accepted":false,"message":"duplicate"}"#);
    let receipt = ResultReceipt {
        accepted: reply["accepted"].as_bool().unwrap(),
        message: reply["message"].as_str().map(str::to_owned),
    };
    assert!(!receipt.accepted);
    // Such a receipt ends the unit: nothing is submitted again.
    let (submitting, action) = at_submission(unit(None));
    assert!(matches!(action, BatchAction::Submit));
    let (done, action) = submitting.handle(BatchEvent::Submitted { reply: Ok(receipt) });
    assert!(matches!(action, BatchAction::Finish));
    assert!(done.unit().is_none());
    assert!(done.body().is_none());
    assert!(matches!(
        refusal(submit_reply(409), transport(Some(409))),
        RequestError::Permanent(409)
    ));
}

fn point(x: &[f32], y: &[f32], normalization: f32, frequency: f32) -> GridPoint {
    let omega = 2.0_f32 * std::f32::consts::PI * frequency;
    let (mut sum_sin_2wt, mut sum_cos_2wt) = (0.0_f32, 0.0_f32);
    for coordinate in x {
        sum_sin_2wt += (2.0 * omega * coordinate).sin();
        sum_cos_2wt += (2.0 * omega * coordinate).cos();
    }
    let tau = sum_sin_2wt.atan2(sum_cos_2wt) / (2.0 * omega);
    let (mut y_cos, mut y_sin, mut cos_squared, mut sin_squared) =
        (0.0_f32, 0.0_f32, 0.0_f32, 0.0_f32);
    for (coordinate, value) in x.iter().zip(y) {
        let shifted = omega * (coordinate - tau);
        y_cos += value * shifted.cos();
        y_sin += value * shifted.sin();
        cos_squared += shifted.cos() * shifted.cos();
        sin_squared += shifted.sin() * shifted.sin();
    }
    let power = ((y_cos * y_cos / cos_squared) + (y_sin * y_sin / sin_squared)) / normalization;
    GridPoint {
        frequency: bits(frequency),
        period_days: bits(1.0 / frequency),
        sum_cos_squared: bits(cos_squared),
        sum_sin_squared: bits(sin_squared),
        power: bits(power),
    }
}

#[test]
fn complete_coordinator_cycle_uses_verified_contract() {
    let client = client();
    let registration = Registration {
        node_id: NODE,
        capabilities: Capabilities {
            platform: "linux",
            hardware_identifier: "x86_64 Linux CPU".to_owned(),
            gpu_name: "none".to_owned(),
            processor_count: 2,
            memory_gb: bits(16.0),
            compute_backends: vec![Backend { id: "cpu" }],
            workloads: vec![WorkloadCapability {
                workload_id: LOMB_SCARGLE_V1,
                execution_backends: vec![Backend { id: "cpu" }],
                validator_id: None,
            }],
        },
    };
    let expected = format!(
        r#"{{"nodeID":"00000000-0000-4000-8000-000000000001",
            "capabilities":{{"platform":"linux","hardwareIdentifier":"x86_64 Linux CPU","gpuName":"none",
            "processorCount":2,"memoryGB":16.0,"computeBackends":[{{"id":"cpu"}}],"workloads":[{{
                "workloadID":"{}","executionBackends":[{{"id":"cpu"}}],"validatorID":null}}]}}}}"#,
        LOMB_SCARGLE_V1
    );
    assert_eq!(
        sent(
            client.register(&registration),
            Method::Post,
            "http://127.0.0.1:5000/v1/nodes/register"
        ),
        parse(&expected)
    );
    assert_eq!(register_reply(200), Reply::Read);
    assert_eq!(
        sent(client.claim(NODE), Method::Post, "http://127.0.0.1:5000/v1/work/claim"),
        parse(r#"{"nodeID":"00000000-0000-4000-8000-000000000001"}"#)
    );
    let p = LombPayload {
        start_frequency: bits(0.2),
        frequency_step: bits(0.15),
        frequency_count: 5,
        frequency_start_index: 40,
    };
    let work = unit(Some(NestedPayload {
        lomb: Ok(p),
        box_period: Err("missing field `phaseBinCount`".to_owned()),
    }));
    assert_eq!(
        sent(
            client.dataset(&work),
            Method::Get,
            "http://127.0.0.1:5000/v1/projects/p/datasets/d"
        ),
        Value::Null
    );
    assert_eq!(dataset_reply(200), Reply::Read);
    let x = [0.0, 0.37, 1.11, 1.8, 2.73];
    let y = [2.0, 3.2, 1.4, 2.8, 1.9];
    let dataset = Dataset {
        coordinates: Some(x.iter().map(|v| bits(*v)).collect()),
        values: Some(y.iter().map(|v| bits(*v)).collect()),
        times: None,
        flux: None,
    };
    let normalization = y.iter().fold(0.0_f32, |sum, v| sum + v * v);
    let frequency = |index: usize| 0.2_f32 + index as f32 * 0.15;
    let points: Vec<GridPoint> =
        (0..5).map(|index| point(&x, &y, normalization, frequency(index))).collect();
    let derived =
        Derived { normalization: bits(normalization), last_frequency: bits(frequency(4)) };
    let result = execute(&dataset, &work.lomb_payload().unwrap(), &derived, &points).unwrap();
    let seconds = Bits64 { bits: 1.25_f64.to_bits() };
    let report = WorkResult::completed(
        &work.id,
        NODE,
        result,
        ExecutionDuration { backend: "cpu", seconds },
        seconds,
    );
    let body = serde_json::to_vec(&value(&report.to_json())).unwrap();
    let submitted = sent(
        client.submit_bytes(&work.id, &body),
        Method::Post,
        "http://127.0.0.1:5000/v1/work/w/result",
    );
    assert_eq!(
        submitted,
        parse(
            r#"{"workUnitID":"w","nodeID":"00000000-0000-4000-8000-000000000001",
                "status":"completed","duration":1.25,"payload":{"bestFrequency":0.8,"bestPeriodDays":1.25,
                "bestPower":0.43365732,"bestFrequencyIndex":44,"cpuDurationSeconds":1.25,
                "totalWorkloadDurationSeconds":1.25},"errorMessage":null,"failureKind":null,
                "bestFrequency":0.8,"bestPeriodDays":1.25,"bestPower":0.43365732}"#
        )
    );
    assert_eq!(submit_reply(200), Reply::Read);
    assert_eq!(claim_reply(204), Reply::Nothing);
}

#[test]
fn resources_stay_beneath_the_base_address() {
    let nested = Coordinator::new("HTTP://Example.org/coordinator/", 5).unwrap_or_else(|_| panic!());
    assert_eq!(nested.base, "http://example.org/coordinator/");
    assert_eq!(nested.timeout, 5);
    let mut work = unit(None);
    work.project_id = "a b".to_owned();
    let request = nested.dataset(&work).unwrap_or_else(|_| panic!());
    assert_eq!(request.url, "http://example.org/coordinator/v1/projects/a%20b/datasets/d");
    let flat = Coordinator::new("http://example.org/coordinator", 5).unwrap_or_else(|_| panic!());
    let request = flat.claim("n").unwrap_or_else(|_| panic!());
    assert_eq!(request.url, "http://example.org/v1/work/claim");
}

#[test]
fn addresses_that_cannot_be_are_refused() {
    match Coordinator::new("not an address", 1) {
        Err(RequestError::Url(reason)) => {
            assert_eq!(reason, "relative URL without a base");
            assert_eq!(
                RequestError::Url(reason).message(),
                "invalid coordinator URL: relative URL without a base"
            );
        }
        _ => panic!(),
    }
    let opaque = Coordinator::new("mailto:someone", 1).unwrap_or_else(|_| panic!());
    assert!(matches!(opaque.claim("n"), Err(RequestError::Url(_))));
    assert!(matches!(opaque.dataset(&unit(None)), Err(RequestError::Url(_))));
    assert!(matches!(opaque.submit_bytes("w", b"{}"), Err(RequestError::Url(_))));
}

#[test]
fn only_server_and_transport_failures_are_transient() {
    let server = refusal(submit_reply(503), transport(Some(503)));
    assert!(server.transient());
    assert_eq!(server.message(), "coordinator transport error: boom");
    assert!(refusal(dataset_reply(500), transport(Some(500))).transient());
    assert!(!refusal(dataset_reply(404), transport(Some(404))).transient());
    assert!(!refusal(dataset_reply(302), transport(None)).transient());
    for flag in 0..3 {
        let error = TransportError {
            timeout: flag == 0,
            connect: flag == 1,
            request: flag == 2,
            ..transport(None)
        };
        assert!(RequestError::Transport(error).transient());
    }
    assert!(!RequestError::Transport(transport(None)).transient());
    assert!(!RequestError::Transport(transport(Some(400))).transient());
    assert!(!RequestError::InvalidResponse("eof".to_owned()).transient());
    assert!(!RequestError::Url("bad".to_owned()).transient());
}

#[test]
fn request_errors_speak_plainly() {
    assert_eq!(
        RequestError::Permanent(409).message(),
        "coordinator rejected request with HTTP 409 Conflict"
    );
    assert_eq!(
        RequestError::Permanent(799).message(),
        "coordinator rejected request with HTTP 799 <unknown status code>"
    );
    assert_eq!(
        RequestError::InvalidResponse("eof".to_owned()).message(),
        "invalid coordinator response: eof"
    );
}

#[test]
fn replies_are_judged_by_status() {
    assert_eq!(register_reply(400), Reply::StatusError);
    assert_eq!(register_reply(500), Reply::StatusError);
    assert_eq!(register_reply(302), Reply::Read);
    assert_eq!(claim_reply(429), Reply::StatusError);
    assert_eq!(claim_reply(503), Reply::StatusError);
    assert_eq!(dataset_reply(404), Reply::Refused(404));
    assert_eq!(dataset_reply(302), Reply::Refused(302));
    assert_eq!(dataset_reply(502), Reply::StatusError);
    assert_eq!(submit_reply(400), Reply::Refused(400));
    assert_eq!(submit_reply(500), Reply::StatusError);
    assert_eq!(submit_reply(204), Reply::Read);
}

#[test]
fn a_base_address_is_known_to_be_a_directory() {
    let directory = |base: &str| {
        Coordinator::new(base, 1).unwrap_or_else(|_| panic!()).is_directory()
    };
    assert!(client().is_directory());
    assert!(directory("https://Example.org"));
    assert!(directory("http://example.org/coordinator/"));
    assert!(!directory("http://example.org/coordinator"));
    assert!(!directory("http://example.org/?query/"));
    assert!(!directory("http://example.org/#fragment/"));
    assert!(!directory("ftp://example.org/"));
    assert!(!directory("mailto:someone"));
    let raw = Coordinator { base: "HTTP://example.org/".to_owned(), timeout: 1 };
    assert!(!raw.is_directory());
    let broken = Coordinator { base: String::new(), timeout: 1 };
    assert!(!broken.is_directory());
}

#[test]
fn exchanges_about_datasets_come_to_what_they_say() {
    let empty = Dataset { coordinates: None, values: None, times: None, flux: None };
    assert!(dataset_outcome(Exchange::Decoded(empty)).is_ok());
    match dataset_outcome(Exchange::Undecoded(transport(Some(200)))) {
        Err(error) => {
            assert!(matches!(&error, RequestError::InvalidResponse(reason) if reason == "boom"));
            assert!(!error.transient());
        }
        Ok(_) => panic!(),
    }
    assert!(matches!(dataset_undecoded("eof".to_owned()),
        RequestError::InvalidResponse(reason) if reason == "eof"));
    assert!(matches!(
        dataset_outcome(Exchange::Unread { status: 404, error: transport(Some(404)) }),
        Err(RequestError::Permanent(404))
    ));
    assert!(matches!(
        dataset_outcome(Exchange::Unread { status: 503, error: transport(Some(503)) }),
        Err(RequestError::Transport(error)) if error.status == Some(503)
    ));
    let lost = TransportError { connect: true, ..transport(None) };
    match dataset_outcome(Exchange::Undelivered(lost)) {
        Err(error) => assert!(error.transient()),
        Ok(_) => panic!(),
    }
}

#[test]
fn exchanges_about_results_come_to_what_they_say() {
    let refused = ResultReceipt { accepted: false, message: None };
    assert!(matches!(submit_outcome(Exchange::Decoded(refused)), Ok(receipt) if !receipt.accepted));
    match submit_outcome(Exchange::Undecoded(transport(Some(200)))) {
        Err(error) => {
            assert!(matches!(&error, RequestError::Transport(_)));
            assert!(!error.transient());
        }
        Ok(_) => panic!(),
    }
    let late = TransportError { timeout: true, ..transport(None) };
    assert!(receipt_undecoded(late).transient());
    assert!(matches!(
        submit_outcome(Exchange::Unread { status: 409, error: transport(Some(409)) }),
        Err(RequestError::Permanent(409))
    ));
    assert!(matches!(
        submit_outcome(Exchange::Unread { status: 500, error: transport(Some(500)) }),
        Err(RequestError::Transport(_))
    ));
    assert!(matches!(
        submit_outcome(Exchange::Undelivered(transport(None))),
        Err(RequestError::Transport(_))
    ));
}
