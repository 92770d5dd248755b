use openstar_linux_worker::float_bits::{Bits32, Bits64};
use openstar_linux_worker::json::Json;
use openstar_linux_worker::protocol::{
    BoxPeriodPayload, BoxPeriodResult, Dataset, ExecutionDuration, FailureKind, LombPayload,
    LombResult, NestedPayload, ResultStatus, WorkResult, WorkUnit, LOMB_SCARGLE_V1,
};
use serde_json::Value;

fn bits(value: f32) -> Bits32 {
    Bits32 { bits: value.to_bits() }
}

fn bits64(value: f64) -> Bits64 {
    Bits64 { bits: value.to_bits() }
}

fn value(json: &Json) -> Value {
    match json {
        Json::Null => Value::Null,
        Json::Count(count) => Value::from(*count),
        Json::Number32(number) => Value::from(f32::from_bits(number.bits)),
        Json::Number64(number) => Value::from(f64::from_bits(number.bits)),
        Json::Text(text) => Value::from(text.as_str()),
        Json::Array(items) => Value::Array(items.iter().map(value).collect()),
        Json::Object(fields) => Value::Object(
            fields.iter().map(|field| (field.name.to_owned(), value(&field.value))).collect(),
        ),
    }
}

fn parse(text: &str) -> Value {
    serde_json::from_str(text).unwrap()
}

fn numbers(source: &Value, name: &str) -> Option<Vec<Bits32>> {
    source[name]
        .as_array()
        .map(|items| items.iter().map(|item| bits(item.as_f64().unwrap() as f32)).collect())
}

fn number(source: &Value, name: &str) -> Option<Bits32> {
    source[name].as_f64().map(|number| bits(number as f32))
}

fn count(source: &Value, name: &str) -> Option<usize> {
    source[name].as_u64().map(|number| number as usize)
}

fn nested(source: &Value) -> NestedPayload {
    NestedPayload {
        lomb: Ok(LombPayload {
            start_frequency: number(source, "startFrequency").unwrap(),
            frequency_step: number(source, "frequencyStep").unwrap(),
            frequency_count: count(source, "frequencyCount").unwrap(),
            frequency_start_index: count(source, "frequencyStartIndex").unwrap_or(0),
        }),
        box_period: Err("missing field `phaseBinCount`".to_owned()),
    }
}

fn work_unit(source: &Value) -> WorkUnit {
    let text = |name: &str| source[name].as_str().unwrap().to_owned();
    WorkUnit {
        id: text("id"),
        project_id: text("projectID"),
        workload_id: text("workloadID"),
        dataset_id: text("datasetID"),
        payload: None,
        start_frequency: number(source, "startFrequency"),
        frequency_step: number(source, "frequencyStep"),
        frequency_count: count(source, "frequencyCount"),
        frequency_start_index: count(source, "frequencyStartIndex"),
    }
}

fn lomb_result() -> LombResult {
    LombResult {
        best_frequency: bits(2.0),
        best_period_days: bits(0.5),
        best_power: bits(0.875),
        best_frequency_index: 42,
    }
}

#[test]
fn failure_kinds_are_exactly_hyphenated() {
    let kinds = [
        FailureKind::Execution,
        FailureKind::WorkloadValidation,
        FailureKind::InvalidInput,
        FailureKind::EnvironmentUnavailable,
        FailureKind::TransportUnavailable,
        FailureKind::UnsupportedWorkload,
        FailureKind::Unknown,
    ];
    assert_eq!(
        kinds.map(|kind| kind.name()),
        [
            "execution",
            "workload-validation",
            "invalid-input",
            "environment-unavailable",
            "transport-unavailable",
            "unsupported-workload",
            "unknown"
        ]
    );
}

#[test]
fn generic_dataset_wins_over_legacy() {
    let source = parse(r#"{"coordinates":[1.0],"values":[2.0],"times":[3.0],"flux":[4.0]}"#);
    let d = Dataset {
        coordinates: numbers(&source, "coordinates"),
        values: numbers(&source, "values"),
        times: numbers(&source, "times"),
        flux: numbers(&source, "flux"),
    };
    assert_eq!(d.series(), Some((&[bits(1.0)][..], &[bits(2.0)][..])));
}

#[test]
fn nested_and_flattened_payloads_use_start_frequency() {
    let text = format!(
        r#"{{"id":"w","projectID":"p","workloadID":"{}","datasetID":"d","startFrequency":0.1,
            "frequencyStep":0.01,"frequencyCount":3,"frequencyStartIndex":7}}"#,
        LOMB_SCARGLE_V1
    );
    let mut w = work_unit(&parse(&text));
    assert_eq!(w.lomb_payload().unwrap().start_frequency, bits(0.1));
    assert_eq!(w.lomb_payload().unwrap().frequency_start_index, 7);
    w.payload = Some(nested(&parse(
        r#"{"startFrequency":0.2,"frequencyStep":0.02,"frequencyCount":4,"frequencyStartIndex":8}"#,
    )));
    assert_eq!(w.lomb_payload().unwrap().start_frequency, bits(0.2));
    assert_eq!(w.lomb_payload().unwrap().frequency_start_index, 8);
}

#[test]
fn completed_result_has_real_envelope_and_flattened_fields() {
    let result = WorkResult::completed(
        "work",
        "node",
        lomb_result(),
        ExecutionDuration { backend: "cpu", seconds: bits64(1.25) },
        bits64(1.25),
    );
    assert_eq!(
        value(&result.to_json()),
        parse(
            r#"{
                "workUnitID":"work", "nodeID":"node", "status":"completed", "duration":1.25,
                "payload":{"bestFrequency":2.0,"bestPeriodDays":0.5,"bestPower":0.875,
                    "bestFrequencyIndex":42,"cpuDurationSeconds":1.25,"totalWorkloadDurationSeconds":1.25},
                "errorMessage":null,"failureKind":null,"bestFrequency":2.0,
                "bestPeriodDays":0.5,"bestPower":0.875
            }"#
        )
    );
}

#[test]
fn vulkan_duration_is_not_labeled_as_cpu_time() {
    let result = WorkResult::completed(
        "work",
        "node",
        lomb_result(),
        ExecutionDuration { backend: "vulkan", seconds: bits64(0.25) },
        bits64(0.5),
    );
    let value = value(&result.to_json());
    let payload = value["payload"].as_object().unwrap();
    assert!(!payload.contains_key("cpuDurationSeconds"));
    assert_eq!(payload["totalWorkloadDurationSeconds"], 0.5);
    assert_eq!(value["duration"], 0.5);
}

#[test]
fn completed_box_result_uses_only_generic_payload_fields() {
    let result = WorkResult::completed_box_period(
        "work",
        "node",
        BoxPeriodResult {
            best_frequency: bits(0.5),
            best_score: bits(8.714213),
            best_phase: bits(0.0),
            best_duration_fraction: bits(0.15),
            best_frequency_index: 22,
            best_duration_index: 1,
            best_phase_bin: 0,
            in_box_samples: 20,
            out_of_box_samples: 60,
        },
        ExecutionDuration { backend: "cpu", seconds: bits64(0.25) },
        bits64(0.5),
    );
    let value = value(&result.to_json());
    assert_eq!(value["payload"]["bestFrequencyIndex"], 22);
    assert_eq!(value["payload"]["bestScore"], Value::from(8.714213_f32));
    assert_eq!(value["payload"]["cpuDurationSeconds"], 0.25);
    assert!(value["bestFrequency"].is_null());
    assert!(value["bestPower"].is_null());
}

#[test]
fn failed_result_carries_kind_and_message_only() {
    let result = WorkResult::failed(
        "work",
        "node",
        bits64(0.75),
        FailureKind::InvalidInput,
        "missing startFrequency".to_owned(),
    );
    assert_eq!(result.status, ResultStatus::Failed);
    assert_eq!(
        value(&result.to_json()),
        parse(
            r#"{"workUnitID":"work","nodeID":"node","status":"failed","duration":0.75,
                "payload":null,"errorMessage":"missing startFrequency",
                "failureKind":"invalid-input","bestFrequency":null,"bestPeriodDays":null,
                "bestPower":null}"#
        )
    );
}

#[test]
fn flattened_fields_are_missed_in_order() {
    let mut w = work_unit(&parse(
        r#"{"id":"w","projectID":"p","workloadID":"x","datasetID":"d"}"#,
    ));
    assert_eq!(w.lomb_payload(), Err("missing startFrequency".to_owned()));
    w.start_frequency = Some(bits(0.1));
    assert_eq!(w.lomb_payload(), Err("missing frequencyStep".to_owned()));
    w.frequency_step = Some(bits(0.1));
    assert_eq!(w.lomb_payload(), Err("missing frequencyCount".to_owned()));
    w.frequency_count = Some(3);
    assert_eq!(w.lomb_payload().unwrap().frequency_start_index, 0);
    assert!(matches!(w.box_period_payload(), Err(message) if message == "missing payload"));
}

#[test]
fn a_nested_payload_is_taken_or_refused_by_its_workload() {
    let mut w = work_unit(&parse(
        r#"{"id":"w","projectID":"p","workloadID":"x","datasetID":"d"}"#,
    ));
    w.payload = Some(NestedPayload {
        lomb: Err("missing field `frequencyStep`".to_owned()),
        box_period: Ok(BoxPeriodPayload {
            start_frequency: bits(0.4),
            frequency_step: bits(0.05),
            frequency_count: 5,
            frequency_start_index: 20,
            phase_bin_count: 20,
            duration_fractions: vec![bits(0.1), bits(0.15)],
            minimum_in_box_samples: 4,
            minimum_out_of_box_samples: 20,
        }),
    });
    assert_eq!(
        w.lomb_payload(),
        Err("invalid payload: missing field `frequencyStep`".to_owned())
    );
    let payload = w.box_period_payload().unwrap_or_else(|_| panic!());
    assert_eq!(payload.duration_fractions, vec![bits(0.1), bits(0.15)]);
    assert_eq!(payload.minimum_out_of_box_samples, 20);
}
