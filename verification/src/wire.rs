//! The JSON form of the messages that the worker sends.

use crate::backend::BackendKind;
use crate::float_bits::Bits64;
use crate::json::{Field, Json};
use crate::protocol::{
    completed_report, Backend, BatchClaimRequest, BoxPeriodResultPayload, Capabilities,
    ClaimRequest, FailureKind, LombResult, Registration, ResultPayload, ResultStatus, WorkResult,
    WorkResultPayload, WorkloadCapability,
};
use vstd::prelude::*;

verus! {

impl ResultStatus {
    pub open spec fn name_spec(self) -> Seq<char> {
        match self {
            ResultStatus::Completed => "completed"@,
            ResultStatus::Failed => "failed"@,
        }
    }

    pub fn name(self) -> (r: &'static str)
        ensures
            r@ == self.name_spec(),
    {
        match self {
            ResultStatus::Completed => "completed",
            ResultStatus::Failed => "failed",
        }
    }
}

impl FailureKind {
    pub open spec fn name_spec(self) -> Seq<char> {
        match self {
            FailureKind::Execution => "execution"@,
            FailureKind::WorkloadValidation => "workload-validation"@,
            FailureKind::InvalidInput => "invalid-input"@,
            FailureKind::EnvironmentUnavailable => "environment-unavailable"@,
            FailureKind::TransportUnavailable => "transport-unavailable"@,
            FailureKind::UnsupportedWorkload => "unsupported-workload"@,
            FailureKind::Unknown => "unknown"@,
        }
    }

    pub fn name(self) -> (r: &'static str)
        ensures
            r@ == self.name_spec(),
    {
        match self {
            FailureKind::Execution => "execution",
            FailureKind::WorkloadValidation => "workload-validation",
            FailureKind::InvalidInput => "invalid-input",
            FailureKind::EnvironmentUnavailable => "environment-unavailable",
            FailureKind::TransportUnavailable => "transport-unavailable",
            FailureKind::UnsupportedWorkload => "unsupported-workload",
            FailureKind::Unknown => "unknown",
        }
    }
}

impl ResultPayload {
    /// The members of a Lomb-Scargle payload; the CPU time only where there
    /// is one.
    pub open spec fn is_json(self, j: Json) -> bool {
        &&& j is Object
        &&& j.member(0) == Json::Number32(self.best_frequency)
        &&& j.member(1) == Json::Number32(self.best_period_days)
        &&& j.member(2) == Json::Number32(self.best_power)
        &&& j.member(3) == Json::Count(self.best_frequency_index)
        &&& match self.cpu_duration_seconds {
            Some(seconds) => {
                &&& j.names() =~= seq![
                    "bestFrequency"@,
                    "bestPeriodDays"@,
                    "bestPower"@,
                    "bestFrequencyIndex"@,
                    "cpuDurationSeconds"@,
                    "totalWorkloadDurationSeconds"@,
                ]
                &&& j.member(4) == Json::Number64(seconds)
                &&& j.member(5) == Json::Number64(self.total_workload_duration_seconds)
            },
            None => {
                &&& j.names() =~= seq![
                    "bestFrequency"@,
                    "bestPeriodDays"@,
                    "bestPower"@,
                    "bestFrequencyIndex"@,
                    "totalWorkloadDurationSeconds"@,
                ]
                &&& j.member(4) == Json::Number64(self.total_workload_duration_seconds)
            },
        }
    }

    pub fn to_json(&self) -> (r: Json)
        ensures
            self.is_json(r),
    {
        let mut fields: Vec<Field> = Vec::new();
        fields.push(Field { name: "bestFrequency", value: Json::Number32(self.best_frequency) });
        fields.push(Field { name: "bestPeriodDays", value: Json::Number32(self.best_period_days) });
        fields.push(Field { name: "bestPower", value: Json::Number32(self.best_power) });
        fields.push(
            Field { name: "bestFrequencyIndex", value: Json::Count(self.best_frequency_index) },
        );
        if let Some(seconds) = self.cpu_duration_seconds {
            fields.push(Field { name: "cpuDurationSeconds", value: Json::Number64(seconds) });
        }
        fields.push(
            Field {
                name: "totalWorkloadDurationSeconds",
                value: Json::Number64(self.total_workload_duration_seconds),
            },
        );
        Json::Object(fields)
    }
}

impl BoxPeriodResultPayload {
    pub open spec fn is_json(self, j: Json) -> bool {
        &&& j is Object
        &&& j.names() =~= seq![
            "bestFrequency"@,
            "bestScore"@,
            "bestPhase"@,
            "bestDurationFraction"@,
            "bestFrequencyIndex"@,
            "bestDurationIndex"@,
            "bestPhaseBin"@,
            "inBoxSamples"@,
            "outOfBoxSamples"@,
            "cpuDurationSeconds"@,
            "totalWorkloadDurationSeconds"@,
        ]
        &&& j.member(0) == Json::Number32(self.best_frequency)
        &&& j.member(1) == Json::Number32(self.best_score)
        &&& j.member(2) == Json::Number32(self.best_phase)
        &&& j.member(3) == Json::Number32(self.best_duration_fraction)
        &&& j.member(4) == Json::Count(self.best_frequency_index)
        &&& j.member(5) == Json::Count(self.best_duration_index)
        &&& j.member(6) == Json::Count(self.best_phase_bin)
        &&& j.member(7) == Json::Count(self.in_box_samples)
        &&& j.member(8) == Json::Count(self.out_of_box_samples)
        &&& j.member(9) == Json::Number64(self.cpu_duration_seconds)
        &&& j.member(10) == Json::Number64(self.total_workload_duration_seconds)
    }

    pub fn to_json(&self) -> (r: Json)
        ensures
            self.is_json(r),
    {
        let fields: Vec<Field> = vec![
            Field { name: "bestFrequency", value: Json::Number32(self.best_frequency) },
            Field { name: "bestScore", value: Json::Number32(self.best_score) },
            Field { name: "bestPhase", value: Json::Number32(self.best_phase) },
            Field { name: "bestDurationFraction", value: Json::Number32(self.best_duration_fraction) },
            Field { name: "bestFrequencyIndex", value: Json::Count(self.best_frequency_index) },
            Field { name: "bestDurationIndex", value: Json::Count(self.best_duration_index) },
            Field { name: "bestPhaseBin", value: Json::Count(self.best_phase_bin) },
            Field { name: "inBoxSamples", value: Json::Count(self.in_box_samples) },
            Field { name: "outOfBoxSamples", value: Json::Count(self.out_of_box_samples) },
            Field { name: "cpuDurationSeconds", value: Json::Number64(self.cpu_duration_seconds) },
            Field {
                name: "totalWorkloadDurationSeconds",
                value: Json::Number64(self.total_workload_duration_seconds),
            },
        ];
        Json::Object(fields)
    }
}

impl WorkResultPayload {
    pub open spec fn is_json(self, j: Json) -> bool {
        match self {
            WorkResultPayload::Lomb(payload) => payload.is_json(j),
            WorkResultPayload::BoxPeriod(payload) => payload.is_json(j),
        }
    }

    pub fn to_json(&self) -> (r: Json)
        ensures
            self.is_json(r),
    {
        match self {
            WorkResultPayload::Lomb(payload) => payload.to_json(),
            WorkResultPayload::BoxPeriod(payload) => payload.to_json(),
        }
    }
}

impl WorkResult {
    pub open spec fn is_json(self, j: Json) -> bool {
        &&& j is Object
        &&& j.names() =~= seq![
            "workUnitID"@,
            "nodeID"@,
            "status"@,
            "duration"@,
            "payload"@,
            "errorMessage"@,
            "failureKind"@,
            "bestFrequency"@,
            "bestPeriodDays"@,
            "bestPower"@,
        ]
        &&& j.member(0).is_text(self@.work_unit_id)
        &&& j.member(1).is_text(self@.node_id)
        &&& j.member(2).is_text(self.status.name_spec())
        &&& j.member(3) == Json::Number64(self.duration)
        &&& match self.payload {
            Some(payload) => payload.is_json(j.member(4)),
            None => j.member(4) is Null,
        }
        &&& j.member(5).is_optional_text(self@.error_message)
        &&& j.member(6).is_optional_text(
            match self.failure_kind {
                Some(kind) => Some(kind.name_spec()),
                None => None,
            },
        )
        &&& j.member(7).is_optional_number(self.best_frequency)
        &&& j.member(8).is_optional_number(self.best_period_days)
        &&& j.member(9).is_optional_number(self.best_power)
    }

    pub fn to_json(&self) -> (r: Json)
        ensures
            self.is_json(r),
    {
        let payload = match &self.payload {
            Some(payload) => payload.to_json(),
            None => Json::Null,
        };
        let failure_kind = match self.failure_kind {
            Some(kind) => Json::Text(kind.name().to_owned()),
            None => Json::Null,
        };
        let fields: Vec<Field> = vec![
            Field { name: "workUnitID", value: Json::Text(self.work_unit_id.clone()) },
            Field { name: "nodeID", value: Json::Text(self.node_id.clone()) },
            Field { name: "status", value: Json::Text(self.status.name().to_owned()) },
            Field { name: "duration", value: Json::Number64(self.duration) },
            Field { name: "payload", value: payload },
            Field { name: "errorMessage", value: Json::optional_text(&self.error_message) },
            Field { name: "failureKind", value: failure_kind },
            Field { name: "bestFrequency", value: Json::optional_number(self.best_frequency) },
            Field { name: "bestPeriodDays", value: Json::optional_number(self.best_period_days) },
            Field { name: "bestPower", value: Json::optional_number(self.best_power) },
        ];
        Json::Object(fields)
    }
}

impl ClaimRequest<'_> {
    pub open spec fn is_json(self, j: Json) -> bool {
        &&& j is Object
        &&& j.names() =~= seq!["nodeID"@]
        &&& j.member(0).is_text(self.node_id@)
    }

    pub fn to_json(&self) -> (r: Json)
        ensures
            self.is_json(r),
    {
        Json::Object(vec![Field { name: "nodeID", value: Json::Text(self.node_id.to_owned()) }])
    }
}

impl BatchClaimRequest<'_> {
    pub open spec fn is_json(self, j: Json) -> bool {
        &&& j is Object
        &&& j.names() =~= seq!["nodeID"@, "maxWorkUnits"@]
        &&& j.member(0).is_text(self.node_id@)
        &&& j.member(1) == Json::Count(self.max_work_units)
    }

    pub fn to_json(&self) -> (r: Json)
        ensures
            self.is_json(r),
    {
        Json::Object(
            vec![
                Field { name: "nodeID", value: Json::Text(self.node_id.to_owned()) },
                Field { name: "maxWorkUnits", value: Json::Count(self.max_work_units) },
            ],
        )
    }
}

impl Backend {
    pub open spec fn is_json(self, j: Json) -> bool {
        &&& j is Object
        &&& j.names() =~= seq!["id"@]
        &&& j.member(0).is_text(self.id@)
    }

    pub fn to_json(&self) -> (r: Json)
        ensures
            self.is_json(r),
    {
        Json::Object(vec![Field { name: "id", value: Json::Text(self.id.to_owned()) }])
    }
}

/// Each item of the array is the JSON form of the backend at its place.
pub open spec fn backends_are_json(backends: Seq<Backend>, j: Json) -> bool {
    &&& j is Array
    &&& j.items().len() == backends.len()
    &&& forall|i: int| 0 <= i < backends.len() ==> backends[i].is_json(#[trigger] j.items()[i])
}

pub fn backends_to_json(backends: &Vec<Backend>) -> (r: Json)
    ensures
        backends_are_json(backends@, r),
{
    let mut items: Vec<Json> = Vec::new();
    let mut i: usize = 0;
    while i < backends.len()
        invariant
            i <= backends@.len(),
            items@.len() == i,
            forall|k: int| 0 <= k < i ==> backends@[k].is_json(#[trigger] items@[k]),
        decreases backends.len() - i,
    {
        items.push(backends[i].to_json());
        i += 1;
    }
    Json::Array(items)
}

impl WorkloadCapability {
    pub open spec fn is_json(self, j: Json) -> bool {
        &&& j is Object
        &&& j.names() =~= seq!["workloadID"@, "executionBackends"@, "validatorID"@]
        &&& j.member(0).is_text(self.workload_id@)
        &&& backends_are_json(self.execution_backends@, j.member(1))
        &&& j.member(2).is_optional_text(
            match self.validator_id {
                Some(id) => Some(id@),
                None => None,
            },
        )
    }

    pub fn to_json(&self) -> (r: Json)
        ensures
            self.is_json(r),
    {
        let validator = match self.validator_id {
            Some(id) => Json::Text(id.to_owned()),
            None => Json::Null,
        };
        Json::Object(
            vec![
                Field { name: "workloadID", value: Json::Text(self.workload_id.to_owned()) },
                Field {
                    name: "executionBackends",
                    value: backends_to_json(&self.execution_backends),
                },
                Field { name: "validatorID", value: validator },
            ],
        )
    }
}

/// Each item of the array is the JSON form of the workload at its place.
pub open spec fn workloads_are_json(workloads: Seq<WorkloadCapability>, j: Json) -> bool {
    &&& j is Array
    &&& j.items().len() == workloads.len()
    &&& forall|i: int| 0 <= i < workloads.len() ==> workloads[i].is_json(#[trigger] j.items()[i])
}

pub fn workloads_to_json(workloads: &Vec<WorkloadCapability>) -> (r: Json)
    ensures
        workloads_are_json(workloads@, r),
{
    let mut items: Vec<Json> = Vec::new();
    let mut i: usize = 0;
    while i < workloads.len()
        invariant
            i <= workloads@.len(),
            items@.len() == i,
            forall|k: int| 0 <= k < i ==> workloads@[k].is_json(#[trigger] items@[k]),
        decreases workloads.len() - i,
    {
        items.push(workloads[i].to_json());
        i += 1;
    }
    Json::Array(items)
}

impl Capabilities {
    pub open spec fn is_json(self, j: Json) -> bool {
        &&& j is Object
        &&& j.names() =~= seq![
            "platform"@,
            "hardwareIdentifier"@,
            "gpuName"@,
            "processorCount"@,
            "memoryGB"@,
            "computeBackends"@,
            "workloads"@,
        ]
        &&& j.member(0).is_text(self.platform@)
        &&& j.member(1).is_text(self.hardware_identifier@)
        &&& j.member(2).is_text(self.gpu_name@)
        &&& j.member(3) == Json::Count(self.processor_count)
        &&& j.member(4) == Json::Number32(self.memory_gb)
        &&& backends_are_json(self.compute_backends@, j.member(5))
        &&& workloads_are_json(self.workloads@, j.member(6))
    }

    pub fn to_json(&self) -> (r: Json)
        ensures
            self.is_json(r),
    {
        Json::Object(
            vec![
                Field { name: "platform", value: Json::Text(self.platform.to_owned()) },
                Field {
                    name: "hardwareIdentifier",
                    value: Json::Text(self.hardware_identifier.clone()),
                },
                Field { name: "gpuName", value: Json::Text(self.gpu_name.clone()) },
                Field { name: "processorCount", value: Json::Count(self.processor_count) },
                Field { name: "memoryGB", value: Json::Number32(self.memory_gb) },
                Field { name: "computeBackends", value: backends_to_json(&self.compute_backends) },
                Field { name: "workloads", value: workloads_to_json(&self.workloads) },
            ],
        )
    }
}

impl Registration<'_> {
    pub open spec fn is_json(self, j: Json) -> bool {
        &&& j is Object
        &&& j.names() =~= seq!["nodeID"@, "capabilities"@]
        &&& j.member(0).is_text(self.node_id@)
        &&& self.capabilities.is_json(j.member(1))
    }

    pub fn to_json(&self) -> (r: Json)
        ensures
            self.is_json(r),
    {
        Json::Object(
            vec![
                Field { name: "nodeID", value: Json::Text(self.node_id.to_owned()) },
                Field { name: "capabilities", value: self.capabilities.to_json() },
            ],
        )
    }
}

/// A completed Lomb-Scargle result names a CPU time where the CPU computed it,
/// and only there.
pub proof fn cpu_time_is_named_for_the_cpu_only(
    report: WorkResult,
    j: Json,
    work_id: Seq<char>,
    node_id: Seq<char>,
    result: LombResult,
    backend: BackendKind,
    seconds: Bits64,
    total_duration: Bits64,
)
    requires
        report@ == completed_report(
            work_id,
            node_id,
            result,
            backend.id_spec(),
            seconds,
            total_duration,
        ),
        report.is_json(j),
    ensures
        j.member(4).names().contains("cpuDurationSeconds"@) <==> backend == BackendKind::Cpu,
        j.member(3) == Json::Number64(total_duration),
{
    reveal_strlit("cpu");
    reveal_strlit("vulkan");
    reveal_strlit("cpuDurationSeconds");
    reveal_strlit("bestFrequency");
    reveal_strlit("bestPeriodDays");
    reveal_strlit("bestPower");
    reveal_strlit("bestFrequencyIndex");
    reveal_strlit("totalWorkloadDurationSeconds");
    let names = j.member(4).names();
    if backend == BackendKind::Cpu {
        assert(names[4] == "cpuDurationSeconds"@);
    } else {
        assert("vulkan"@.len() != "cpu"@.len());
        assert forall|i: int| 0 <= i < names.len() implies names[i] != "cpuDurationSeconds"@ by {
            assert(names.len() == 5);
            assert("bestFrequencyIndex"@[0] != "cpuDurationSeconds"@[0]);
        }
    }
}

/// No two kinds of failure share a name.
pub proof fn failure_names_are_distinct(a: FailureKind, b: FailureKind)
    requires
        a.name_spec() == b.name_spec(),
    ensures
        a == b,
{
    reveal_strlit("execution");
    reveal_strlit("workload-validation");
    reveal_strlit("invalid-input");
    reveal_strlit("environment-unavailable");
    reveal_strlit("transport-unavailable");
    reveal_strlit("unsupported-workload");
    reveal_strlit("unknown");
    assert("execution"@.len() == 9);
    assert("workload-validation"@.len() == 19);
    assert("invalid-input"@.len() == 13);
    assert("environment-unavailable"@.len() == 23);
    assert("transport-unavailable"@.len() == 21);
    assert("unsupported-workload"@.len() == 20);
    assert("unknown"@.len() == 7);
}

} // verus!
