//! What holds of the messages: a dataset's series, a unit's parameters, and what
//! a report says under which name.

use crate::backend::BackendKind;
use crate::float_bits::{Bits32, Bits64};
use crate::json::Json;
use crate::protocol::{
    completed_box_period_report, completed_report, failed_report, BatchClaimRequest,
    BoxPeriodPayload, BoxPeriodResult, Capabilities, ClaimRequest, Dataset, FailureKind,
    LombPayload, LombResult, Registration, WorkResult, WorkUnit, WorkloadCapability,
};
use vstd::prelude::*;

verus! {

/// Renaming a dataset's fields does not change its series: the older names give
/// the series that the newer names give, coordinates first.
pub proof fn field_names_do_not_change_a_series(
    older: Dataset,
    newer: Dataset,
    x: Vec<Bits32>,
    y: Vec<Bits32>,
)
    requires
        older.times == Some(x),
        older.flux == Some(y),
        older.coordinates is None || older.values is None,
        newer.coordinates == Some(x),
        newer.values == Some(y),
    ensures
        older.series_spec() == newer.series_spec(),
        older.series_spec() is Some,
        older.series_spec()->Some_0.0 == x@,
        older.series_spec()->Some_0.1 == y@,
{
}

/// The newer names win: where both of them are there, the older ones do not
/// matter.
pub proof fn newer_field_names_win(one: Dataset, other: Dataset)
    requires
        one.coordinates is Some,
        one.values is Some,
        one.coordinates == other.coordinates,
        one.values == other.values,
    ensures
        one.series_spec() == other.series_spec(),
        one.series_spec() == Some((one.coordinates->Some_0@, one.values->Some_0@)),
{
}

/// A dataset has no series exactly where neither pair of fields is complete.
pub proof fn a_series_needs_a_complete_pair(dataset: Dataset)
    ensures
        dataset.series_spec() is None <==> (dataset.coordinates is None || dataset.values is None)
            && (dataset.times is None || dataset.flux is None),
{
}

/// Where a unit has no payload object, each parameter is the field of its name,
/// and the index defaults to zero. A payload object with the same numbers gives
/// the same parameters.
pub proof fn parameters_are_the_fields_of_their_names(
    flat: WorkUnit,
    nested: WorkUnit,
    payload: LombPayload,
)
    requires
        flat.payload is None,
        flat.start_frequency == Some(payload.start_frequency),
        flat.frequency_step == Some(payload.frequency_step),
        flat.frequency_count == Some(payload.frequency_count),
        flat.frequency_start_index == Some(payload.frequency_start_index) || (
        flat.frequency_start_index is None && payload.frequency_start_index == 0),
        nested.payload is Some,
        nested.payload->Some_0.lomb == Ok::<LombPayload, String>(payload),
    ensures
        flat.lomb_payload_spec() is Ok,
        flat.lomb_payload_spec()->Ok_0.start_frequency == payload.start_frequency,
        flat.lomb_payload_spec()->Ok_0.frequency_step == payload.frequency_step,
        flat.lomb_payload_spec()->Ok_0.frequency_count == payload.frequency_count,
        flat.lomb_payload_spec()->Ok_0.frequency_start_index == payload.frequency_start_index,
        nested.lomb_payload_spec() == flat.lomb_payload_spec(),
{
}

/// Parameters come out exactly where they are given: by a payload object that
/// decodes, or by all three fields. The first field that is missing is named, and
/// a payload object that does not decode is quoted.
pub proof fn missing_parameters_are_named(unit: WorkUnit)
    ensures
        unit.payload is Some ==> {
            &&& unit.lomb_payload_spec() is Ok <==> unit.payload->Some_0.lomb is Ok
            &&& unit.payload->Some_0.lomb matches Err(reason) ==> unit.lomb_payload_spec()->Err_0
                == "invalid payload: "@ + reason@
        },
        unit.payload is None ==> {
            &&& unit.lomb_payload_spec() is Ok <==> unit.start_frequency is Some
                && unit.frequency_step is Some && unit.frequency_count is Some
            &&& unit.start_frequency is None ==> unit.lomb_payload_spec()->Err_0
                == "missing startFrequency"@
            &&& unit.start_frequency is Some && unit.frequency_step is None
                ==> unit.lomb_payload_spec()->Err_0 == "missing frequencyStep"@
            &&& unit.start_frequency is Some && unit.frequency_step is Some
                && unit.frequency_count is None ==> unit.lomb_payload_spec()->Err_0
                == "missing frequencyCount"@
        },
{
}

/// The parameters of a box search are those of the payload object, one by one,
/// and only a payload object has them.
pub proof fn box_parameters_are_those_of_the_payload(unit: WorkUnit, payload: BoxPeriodPayload)
    ensures
        unit.payload is None ==> unit.box_period_payload_spec() is Err
            && unit.box_period_payload_spec()->Err_0 == "missing payload"@,
        unit.payload is Some ==> (unit.payload->Some_0.box_period matches Err(reason)
            ==> unit.box_period_payload_spec() is Err && unit.box_period_payload_spec()->Err_0
            == "invalid payload: "@ + reason@),
        unit.payload is Some && unit.payload->Some_0.box_period == Ok::<
            BoxPeriodPayload,
            String,
        >(payload) ==> {
            &&& unit.box_period_payload_spec() is Ok
            &&& unit.box_period_payload_spec()->Ok_0.start_frequency == payload.start_frequency
            &&& unit.box_period_payload_spec()->Ok_0.frequency_step == payload.frequency_step
            &&& unit.box_period_payload_spec()->Ok_0.frequency_count == payload.frequency_count
            &&& unit.box_period_payload_spec()->Ok_0.frequency_start_index
                == payload.frequency_start_index
            &&& unit.box_period_payload_spec()->Ok_0.phase_bin_count == payload.phase_bin_count
            &&& unit.box_period_payload_spec()->Ok_0.duration_fractions
                == payload.duration_fractions@
            &&& unit.box_period_payload_spec()->Ok_0.minimum_in_box_samples
                == payload.minimum_in_box_samples
            &&& unit.box_period_payload_spec()->Ok_0.minimum_out_of_box_samples
                == payload.minimum_out_of_box_samples
        },
{
}

/// An object has a member of this name and value.
pub open spec fn says(j: Json, name: Seq<char>, value: Json) -> bool {
    j matches Json::Object(fields) && exists|i: int|
        0 <= i < fields@.len() && (#[trigger] fields@[i]).name@ == name && fields@[i].value
            == value
}

/// An object has a member of this name that is this text.
pub open spec fn says_text(j: Json, name: Seq<char>, text: Seq<char>) -> bool {
    j matches Json::Object(fields) && exists|i: int|
        0 <= i < fields@.len() && (#[trigger] fields@[i]).name@ == name && (
        fields@[i].value matches Json::Text(t) && t@ == text)
}

/// An object has a member of this name, an object or an array.
pub open spec fn holds(j: Json, name: Seq<char>, value: Json) -> bool {
    says(j, name, value)
}

/// Where an object's members have names in order, the `i`-th name is said.
proof fn a_member_is_said(j: Json, names: Seq<Seq<char>>, i: int)
    requires
        j is Object,
        j.names() == names,
        0 <= i < names.len(),
    ensures
        says(j, names[i], j.member(i)),
        j.member(i) matches Json::Text(t) ==> says_text(j, names[i], t@),
{
    let fields = j->Object_0@;
    assert(j.members() == fields);
    assert(fields.len() == names.len());
    assert(j.names()[i] == fields[i].name@);
    assert(fields[i].name@ == names[i] && fields[i].value == j.member(i));
}

/// A report of a box search says under each name what the search found: reading
/// the members back gives the result that was reported.
pub proof fn a_box_report_says_what_was_found(
    report: WorkResult,
    j: Json,
    work_id: Seq<char>,
    node_id: Seq<char>,
    result: BoxPeriodResult,
    seconds: Bits64,
    total_duration: Bits64,
)
    requires
        report@ == completed_box_period_report(work_id, node_id, result, seconds, total_duration),
        report.is_json(j),
    ensures
        says_text(j, "workUnitID"@, work_id),
        says_text(j, "nodeID"@, node_id),
        says_text(j, "status"@, "completed"@),
        says(j, "duration"@, Json::Number64(total_duration)),
        says(j, "errorMessage"@, Json::Null),
        says(j, "failureKind"@, Json::Null),
        says(j, "bestFrequency"@, Json::Null),
        says(j, "bestPeriodDays"@, Json::Null),
        says(j, "bestPower"@, Json::Null),
        exists|found: Json| #[trigger]
            holds(j, "payload"@, found) && {
                &&& says(found, "bestFrequency"@, Json::Number32(result.best_frequency))
                &&& says(found, "bestScore"@, Json::Number32(result.best_score))
                &&& says(found, "bestPhase"@, Json::Number32(result.best_phase))
                &&& says(
                    found,
                    "bestDurationFraction"@,
                    Json::Number32(result.best_duration_fraction),
                )
                &&& says(found, "bestFrequencyIndex"@, Json::Count(result.best_frequency_index))
                &&& says(found, "bestDurationIndex"@, Json::Count(result.best_duration_index))
                &&& says(found, "bestPhaseBin"@, Json::Count(result.best_phase_bin))
                &&& says(found, "inBoxSamples"@, Json::Count(result.in_box_samples))
                &&& says(found, "outOfBoxSamples"@, Json::Count(result.out_of_box_samples))
                &&& says(found, "cpuDurationSeconds"@, Json::Number64(seconds))
                &&& says(found, "totalWorkloadDurationSeconds"@, Json::Number64(total_duration))
            },
{
    let names = j.names();
    assert forall|i: int| 0 <= i < 10 implies says(j, #[trigger] names[i], j.member(i)) && (
    j.member(i) matches Json::Text(t) ==> says_text(j, names[i], t@)) by {
        a_member_is_said(j, names, i);
    }
    let found = j.member(4);
    let inner = found.names();
    assert(holds(j, names[4], found));
    assert forall|i: int| 0 <= i < 11 implies says(found, #[trigger] inner[i], found.member(i)) by {
        a_member_is_said(found, inner, i);
    }
    assert(names[0] == "workUnitID"@ && names[1] == "nodeID"@ && names[2] == "status"@ && names[3]
        == "duration"@ && names[4] == "payload"@ && names[5] == "errorMessage"@ && names[6]
        == "failureKind"@ && names[7] == "bestFrequency"@ && names[8] == "bestPeriodDays"@
        && names[9] == "bestPower"@);
    assert(inner[0] == "bestFrequency"@ && inner[1] == "bestScore"@ && inner[2] == "bestPhase"@
        && inner[3] == "bestDurationFraction"@ && inner[4] == "bestFrequencyIndex"@ && inner[5]
        == "bestDurationIndex"@ && inner[6] == "bestPhaseBin"@ && inner[7] == "inBoxSamples"@
        && inner[8] == "outOfBoxSamples"@ && inner[9] == "cpuDurationSeconds"@ && inner[10]
        == "totalWorkloadDurationSeconds"@);
    assert(holds(j, "payload"@, found));
}

/// A report of a Lomb-Scargle search says under each name what the search found,
/// in the payload and beside it, and names a CPU time where the CPU computed.
pub proof fn a_lomb_report_says_what_was_found(
    report: WorkResult,
    j: Json,
    work_id: Seq<char>,
    node_id: Seq<char>,
    result: LombResult,
    backend: BackendKind,
    seconds: Bits64,
    total_duration: Bits64,
)
    requires
        report@ == completed_report(
            work_id,
            node_id,
            result,
            backend.id_spec(),
            seconds,
            total_duration,
        ),
        report.is_json(j),
    ensures
        says_text(j, "workUnitID"@, work_id),
        says_text(j, "nodeID"@, node_id),
        says_text(j, "status"@, "completed"@),
        says(j, "duration"@, Json::Number64(total_duration)),
        says(j, "errorMessage"@, Json::Null),
        says(j, "failureKind"@, Json::Null),
        says(j, "bestFrequency"@, Json::Number32(result.best_frequency)),
        says(j, "bestPeriodDays"@, Json::Number32(result.best_period_days)),
        says(j, "bestPower"@, Json::Number32(result.best_power)),
        exists|found: Json| #[trigger]
            holds(j, "payload"@, found) && {
                &&& says(found, "bestFrequency"@, Json::Number32(result.best_frequency))
                &&& says(found, "bestPeriodDays"@, Json::Number32(result.best_period_days))
                &&& says(found, "bestPower"@, Json::Number32(result.best_power))
                &&& says(found, "bestFrequencyIndex"@, Json::Count(result.best_frequency_index))
                &&& says(found, "totalWorkloadDurationSeconds"@, Json::Number64(total_duration))
                &&& backend == BackendKind::Cpu ==> says(
                    found,
                    "cpuDurationSeconds"@,
                    Json::Number64(seconds),
                )
                &&& backend == BackendKind::Vulkan ==> forall|value: Json|
                    !says(found, "cpuDurationSeconds"@, value)
            },
{
    let names = j.names();
    assert forall|i: int| 0 <= i < 10 implies says(j, #[trigger] names[i], j.member(i)) && (
    j.member(i) matches Json::Text(t) ==> says_text(j, names[i], t@)) by {
        a_member_is_said(j, names, i);
    }
    let found = j.member(4);
    let inner = found.names();
    assert(holds(j, names[4], found));
    assert forall|i: int| 0 <= i < inner.len() implies says(
        found,
        #[trigger] inner[i],
        found.member(i),
    ) by {
        a_member_is_said(found, inner, i);
    }
    assert(names[0] == "workUnitID"@ && names[1] == "nodeID"@ && names[2] == "status"@ && names[3]
        == "duration"@ && names[4] == "payload"@ && names[5] == "errorMessage"@ && names[6]
        == "failureKind"@ && names[7] == "bestFrequency"@ && names[8] == "bestPeriodDays"@
        && names[9] == "bestPower"@);
    assert(inner[0] == "bestFrequency"@ && inner[1] == "bestPeriodDays"@ && inner[2]
        == "bestPower"@ && inner[3] == "bestFrequencyIndex"@);
    crate::wire::cpu_time_is_named_for_the_cpu_only(
        report,
        j,
        work_id,
        node_id,
        result,
        backend,
        seconds,
        total_duration,
    );
    if backend == BackendKind::Cpu {
        assert(inner[4] == "cpuDurationSeconds"@ && inner[5] == "totalWorkloadDurationSeconds"@);
    } else {
        reveal_strlit("cpu");
        reveal_strlit("vulkan");
        assert("vulkan"@.len() != "cpu"@.len());
        assert(inner[4] == "totalWorkloadDurationSeconds"@);
        assert forall|value: Json| !says(found, "cpuDurationSeconds"@, value) by {
            if says(found, "cpuDurationSeconds"@, value) {
                let fields = found->Object_0@;
                let i = choose|i: int|
                    0 <= i < fields.len() && (#[trigger] fields[i]).name@ == "cpuDurationSeconds"@
                        && fields[i].value == value;
                assert(inner[i] == "cpuDurationSeconds"@);
                assert(inner.contains("cpuDurationSeconds"@));
            }
        }
    }
    assert(holds(j, "payload"@, found));
}

/// A report of a failure says why, and reports no finding.
pub proof fn a_failure_report_says_why(
    report: WorkResult,
    j: Json,
    work_id: Seq<char>,
    node_id: Seq<char>,
    duration: Bits64,
    kind: FailureKind,
    message: Seq<char>,
)
    requires
        report@ == failed_report(work_id, node_id, duration, kind, message),
        report.is_json(j),
    ensures
        says_text(j, "workUnitID"@, work_id),
        says_text(j, "nodeID"@, node_id),
        says_text(j, "status"@, "failed"@),
        says(j, "duration"@, Json::Number64(duration)),
        says(j, "payload"@, Json::Null),
        says_text(j, "errorMessage"@, message),
        kind is Execution ==> says_text(j, "failureKind"@, "execution"@),
        kind is WorkloadValidation ==> says_text(j, "failureKind"@, "workload-validation"@),
        kind is InvalidInput ==> says_text(j, "failureKind"@, "invalid-input"@),
        kind is EnvironmentUnavailable ==> says_text(
            j,
            "failureKind"@,
            "environment-unavailable"@,
        ),
        kind is TransportUnavailable ==> says_text(j, "failureKind"@, "transport-unavailable"@),
        kind is UnsupportedWorkload ==> says_text(j, "failureKind"@, "unsupported-workload"@),
        kind is Unknown ==> says_text(j, "failureKind"@, "unknown"@),
        says(j, "bestFrequency"@, Json::Null),
        says(j, "bestPeriodDays"@, Json::Null),
        says(j, "bestPower"@, Json::Null),
{
    let names = j.names();
    assert forall|i: int| 0 <= i < 10 implies says(j, #[trigger] names[i], j.member(i)) && (
    j.member(i) matches Json::Text(t) ==> says_text(j, names[i], t@)) by {
        a_member_is_said(j, names, i);
    }
    assert(names[0] == "workUnitID"@ && names[1] == "nodeID"@ && names[2] == "status"@ && names[3]
        == "duration"@ && names[4] == "payload"@ && names[5] == "errorMessage"@ && names[6]
        == "failureKind"@ && names[7] == "bestFrequency"@ && names[8] == "bestPeriodDays"@
        && names[9] == "bestPower"@);
}

/// A claim says which node asks, and a claim of several units how many it asks
/// for.
pub proof fn claims_say_who_asks_for_how_much(
    one: ClaimRequest,
    several: BatchClaimRequest,
    first: Json,
    second: Json,
)
    requires
        one.is_json(first),
        several.is_json(second),
    ensures
        says_text(first, "nodeID"@, one.node_id@),
        forall|name: Seq<char>, value: Json|
            says(first, name, value) ==> name == "nodeID"@,
        says_text(second, "nodeID"@, several.node_id@),
        says(second, "maxWorkUnits"@, Json::Count(several.max_work_units)),
{
    a_member_is_said(first, first.names(), 0);
    a_member_is_said(second, second.names(), 0);
    a_member_is_said(second, second.names(), 1);
    assert(first.names()[0] == "nodeID"@);
    assert(second.names()[0] == "nodeID"@ && second.names()[1] == "maxWorkUnits"@);
    assert forall|name: Seq<char>, value: Json| says(first, name, value) implies name
        == "nodeID"@ by {
        let fields = first->Object_0@;
        let i = choose|i: int|
            0 <= i < fields.len() && (#[trigger] fields[i]).name@ == name && fields[i].value
                == value;
        assert(first.names()[i] == name);
    }
}

/// An advertised workload says its identifier, its backends in order and its
/// validator.
pub open spec fn advertises(workload: WorkloadCapability, j: Json) -> bool {
    &&& says_text(j, "workloadID"@, workload.workload_id@)
    &&& exists|list: Json| #[trigger]
        holds(j, "executionBackends"@, list) && lists(workload.execution_backends@, list)
    &&& workload.validator_id is None ==> says(j, "validatorID"@, Json::Null)
    &&& workload.validator_id matches Some(id) ==> says_text(j, "validatorID"@, id@)
}

/// The array names the backends, in order.
pub open spec fn lists(backends: Seq<crate::protocol::Backend>, list: Json) -> bool {
    list matches Json::Array(items) && items@.len() == backends.len() && forall|i: int|
        0 <= i < backends.len() ==> says_text(#[trigger] items@[i], "id"@, backends[i].id@)
}

proof fn backends_are_listed(backends: Seq<crate::protocol::Backend>, list: Json)
    requires
        crate::wire::backends_are_json(backends, list),
    ensures
        lists(backends, list),
{
    let items = list->Array_0@;
    assert forall|i: int| 0 <= i < backends.len() implies says_text(
        #[trigger] items[i],
        "id"@,
        backends[i].id@,
    ) by {
        assert(backends[i].is_json(list.items()[i]));
        a_member_is_said(items[i], items[i].names(), 0);
        assert(items[i].names()[0] == "id"@);
    }
}

/// A registration says who the node is and what it can do, under the name of
/// each capability.
pub proof fn a_registration_says_what_the_node_can_do(registration: Registration, j: Json)
    requires
        registration.is_json(j),
    ensures
        says_text(j, "nodeID"@, registration.node_id@),
        exists|can: Json| #[trigger]
            holds(j, "capabilities"@, can) && says_capabilities(registration.capabilities, can),
{
    let names = j.names();
    a_member_is_said(j, names, 0);
    a_member_is_said(j, names, 1);
    assert(names[0] == "nodeID"@ && names[1] == "capabilities"@);
    let can = j.member(1);
    let c = registration.capabilities;
    assert(holds(j, "capabilities"@, can));
    let inner = can.names();
    assert forall|i: int| 0 <= i < 7 implies says(can, #[trigger] inner[i], can.member(i)) && (
    can.member(i) matches Json::Text(t) ==> says_text(can, inner[i], t@)) by {
        a_member_is_said(can, inner, i);
    }
    assert(inner[0] == "platform"@ && inner[1] == "hardwareIdentifier"@ && inner[2] == "gpuName"@
        && inner[3] == "processorCount"@ && inner[4] == "memoryGB"@ && inner[5]
        == "computeBackends"@ && inner[6] == "workloads"@);
    backends_are_listed(c.compute_backends@, can.member(5));
    assert(holds(can, "computeBackends"@, can.member(5)));
    assert(holds(can, "workloads"@, can.member(6)));
    let items = can.member(6)->Array_0@;
    assert forall|i: int| 0 <= i < c.workloads@.len() implies advertises(
        c.workloads@[i],
        #[trigger] items[i],
    ) by {
        let w = items[i];
        assert(c.workloads@[i].is_json(can.member(6).items()[i]));
        a_member_is_said(w, w.names(), 0);
        a_member_is_said(w, w.names(), 1);
        a_member_is_said(w, w.names(), 2);
        assert(w.names()[0] == "workloadID"@ && w.names()[1] == "executionBackends"@ && w.names()[2]
            == "validatorID"@);
        backends_are_listed(c.workloads@[i].execution_backends@, w.member(1));
        assert(holds(w, "executionBackends"@, w.member(1)));
    }
    assert(says_capabilities(c, can));
}

/// The object says each capability under its name.
pub open spec fn says_capabilities(c: Capabilities, can: Json) -> bool {
    &&& says_text(can, "platform"@, c.platform@)
    &&& says_text(can, "hardwareIdentifier"@, c.hardware_identifier@)
    &&& says_text(can, "gpuName"@, c.gpu_name@)
    &&& says(can, "processorCount"@, Json::Count(c.processor_count))
    &&& says(can, "memoryGB"@, Json::Number32(c.memory_gb))
    &&& exists|list: Json| #[trigger]
        holds(can, "computeBackends"@, list) && lists(c.compute_backends@, list)
    &&& exists|list: Json| #[trigger]
        holds(can, "workloads"@, list) && (list matches Json::Array(items) && items@.len()
            == c.workloads@.len() && forall|i: int|
            0 <= i < items@.len() ==> advertises(c.workloads@[i], #[trigger] items@[i]))
}

} // verus!
