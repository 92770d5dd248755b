//! The messages exchanged with the coordinator.

use crate::float_bits::{Bits32, Bits64};
use crate::text::{joined, same_text};
use vstd::prelude::*;

verus! {

/// Identifies the Lomb-Scargle periodogram workload.
pub const LOMB_SCARGLE_V1: &'static str = "openstar.lomb-scargle.v1";

/// Identifies the periodic-box search workload.
pub const BOX_PERIOD_SEARCH_V1: &'static str = "openstar.box-period-search.v1";

/// What a node tells the coordinator about itself.
pub struct Registration<'a> {
    pub node_id: &'a str,
    pub capabilities: Capabilities,
}

pub struct Capabilities {
    pub platform: &'static str,
    pub hardware_identifier: String,
    pub gpu_name: String,
    pub processor_count: usize,
    pub memory_gb: Bits32,
    pub compute_backends: Vec<Backend>,
    pub workloads: Vec<WorkloadCapability>,
}

pub struct Backend {
    pub id: &'static str,
}

pub struct WorkloadCapability {
    pub workload_id: &'static str,
    pub execution_backends: Vec<Backend>,
    pub validator_id: Option<&'static str>,
}

pub struct RegistrationReceipt {
    pub accepted: bool,
    pub message: String,
}

pub struct ClaimRequest<'a> {
    pub node_id: &'a str,
}

pub struct BatchClaimRequest<'a> {
    pub node_id: &'a str,
    pub max_work_units: usize,
}

/// A claimed unit of work.
pub struct WorkUnit {
    pub id: String,
    pub project_id: String,
    pub workload_id: String,
    pub dataset_id: String,
    pub payload: Option<NestedPayload>,
    pub start_frequency: Option<Bits32>,
    pub frequency_step: Option<Bits32>,
    pub frequency_count: Option<usize>,
    pub frequency_start_index: Option<usize>,
}

/// A payload object as each workload reads it: the decoded parameters, or why
/// the object does not decode to them.
pub struct NestedPayload {
    pub lomb: Result<LombPayload, String>,
    pub box_period: Result<BoxPeriodPayload, String>,
}

/// A time series, under its generic or its older names.
pub struct Dataset {
    pub coordinates: Option<Vec<Bits32>>,
    pub values: Option<Vec<Bits32>>,
    pub times: Option<Vec<Bits32>>,
    pub flux: Option<Vec<Bits32>>,
}

impl Dataset {
    /// The coordinates and values of the series: the generic pair where both
    /// are given, else the older pair where both are given.
    pub open spec fn series_spec(self) -> Option<(Seq<Bits32>, Seq<Bits32>)> {
        match (self.coordinates, self.values) {
            (Some(x), Some(y)) => Some((x@, y@)),
            _ => match (self.times, self.flux) {
                (Some(x), Some(y)) => Some((x@, y@)),
                _ => None,
            },
        }
    }

    pub fn series(&self) -> (r: Option<(&[Bits32], &[Bits32])>)
        ensures
            match r {
                Some((x, y)) => self.series_spec() == Some((x@, y@)),
                None => self.series_spec() is None,
            },
    {
        match (&self.coordinates, &self.values) {
            (Some(x), Some(y)) => Some((x.as_slice(), y.as_slice())),
            _ => match (&self.times, &self.flux) {
                (Some(x), Some(y)) => Some((x.as_slice(), y.as_slice())),
                _ => None,
            },
        }
    }
}

/// Parameters of a Lomb-Scargle work unit.
#[derive(Clone, Copy, Debug, PartialEq, Eq, Structural)]
pub struct LombPayload {
    pub start_frequency: Bits32,
    pub frequency_step: Bits32,
    pub frequency_count: usize,
    pub frequency_start_index: usize,
}

/// Parameters of a periodic-box search.
pub struct BoxPeriodPayload {
    pub start_frequency: Bits32,
    pub frequency_step: Bits32,
    pub frequency_count: usize,
    pub frequency_start_index: usize,
    pub phase_bin_count: usize,
    pub duration_fractions: Vec<Bits32>,
    pub minimum_in_box_samples: usize,
    pub minimum_out_of_box_samples: usize,
}

/// The contents of a [`BoxPeriodPayload`].
pub struct BoxPeriodParameters {
    pub start_frequency: Bits32,
    pub frequency_step: Bits32,
    pub frequency_count: usize,
    pub frequency_start_index: usize,
    pub phase_bin_count: usize,
    pub duration_fractions: Seq<Bits32>,
    pub minimum_in_box_samples: usize,
    pub minimum_out_of_box_samples: usize,
}

impl View for BoxPeriodPayload {
    type V = BoxPeriodParameters;

    open spec fn view(&self) -> BoxPeriodParameters {
        BoxPeriodParameters {
            start_frequency: self.start_frequency,
            frequency_step: self.frequency_step,
            frequency_count: self.frequency_count,
            frequency_start_index: self.frequency_start_index,
            phase_bin_count: self.phase_bin_count,
            duration_fractions: self.duration_fractions@,
            minimum_in_box_samples: self.minimum_in_box_samples,
            minimum_out_of_box_samples: self.minimum_out_of_box_samples,
        }
    }
}

impl BoxPeriodPayload {
    /// A second payload with the same contents.
    pub fn duplicate(&self) -> (r: BoxPeriodPayload)
        ensures
            r@ == self@,
    {
        let mut fractions: Vec<Bits32> = Vec::new();
        let mut i: usize = 0;
        while i < self.duration_fractions.len()
            invariant
                i <= self.duration_fractions@.len(),
                fractions@ == self.duration_fractions@.take(i as int),
            decreases self.duration_fractions.len() - i,
        {
            fractions.push(self.duration_fractions[i]);
            i += 1;
        }
        assert(fractions@ =~= self.duration_fractions@);
        BoxPeriodPayload {
            start_frequency: self.start_frequency,
            frequency_step: self.frequency_step,
            frequency_count: self.frequency_count,
            frequency_start_index: self.frequency_start_index,
            phase_bin_count: self.phase_bin_count,
            duration_fractions: fractions,
            minimum_in_box_samples: self.minimum_in_box_samples,
            minimum_out_of_box_samples: self.minimum_out_of_box_samples,
        }
    }
}

impl WorkUnit {
    /// The Lomb-Scargle parameters of this unit, or why it has none. A payload
    /// object decides alone; without one the unit's own fields are taken.
    pub open spec fn lomb_payload_spec(self) -> Result<LombPayload, Seq<char>> {
        match self.payload {
            Some(nested) => match nested.lomb {
                Ok(payload) => Ok(payload),
                Err(reason) => Err("invalid payload: "@ + reason@),
            },
            None => match (self.start_frequency, self.frequency_step, self.frequency_count) {
                (Some(start_frequency), Some(frequency_step), Some(frequency_count)) => Ok(
                    LombPayload {
                        start_frequency,
                        frequency_step,
                        frequency_count,
                        frequency_start_index: match self.frequency_start_index {
                            Some(index) => index,
                            None => 0,
                        },
                    },
                ),
                (None, _, _) => Err("missing startFrequency"@),
                (_, None, _) => Err("missing frequencyStep"@),
                (_, _, None) => Err("missing frequencyCount"@),
            },
        }
    }

    pub fn lomb_payload(&self) -> (r: Result<LombPayload, String>)
        ensures
            match r {
                Ok(payload) => self.lomb_payload_spec() == Ok::<LombPayload, Seq<char>>(payload),
                Err(message) => self.lomb_payload_spec() == Err::<LombPayload, Seq<char>>(
                    message@,
                ),
            },
    {
        match &self.payload {
            Some(nested) => match &nested.lomb {
                Ok(payload) => Ok(*payload),
                Err(reason) => Err(joined("invalid payload: ", reason.as_str())),
            },
            None => match (self.start_frequency, self.frequency_step, self.frequency_count) {
                (Some(start_frequency), Some(frequency_step), Some(frequency_count)) => Ok(
                    LombPayload {
                        start_frequency,
                        frequency_step,
                        frequency_count,
                        frequency_start_index: match self.frequency_start_index {
                            Some(index) => index,
                            None => 0,
                        },
                    },
                ),
                (None, _, _) => Err("missing startFrequency".to_owned()),
                (_, None, _) => Err("missing frequencyStep".to_owned()),
                (_, _, None) => Err("missing frequencyCount".to_owned()),
            },
        }
    }

    /// The periodic-box parameters of this unit, or why it has none.
    pub open spec fn box_period_payload_spec(self) -> Result<BoxPeriodParameters, Seq<char>> {
        match self.payload {
            Some(nested) => match nested.box_period {
                Ok(payload) => Ok(payload@),
                Err(reason) => Err("invalid payload: "@ + reason@),
            },
            None => Err("missing payload"@),
        }
    }

    pub fn box_period_payload(&self) -> (r: Result<BoxPeriodPayload, String>)
        ensures
            match r {
                Ok(payload) => self.box_period_payload_spec() == Ok::<
                    BoxPeriodParameters,
                    Seq<char>,
                >(payload@),
                Err(message) => self.box_period_payload_spec() == Err::<
                    BoxPeriodParameters,
                    Seq<char>,
                >(message@),
            },
    {
        match &self.payload {
            Some(nested) => match &nested.box_period {
                Ok(payload) => Ok(payload.duplicate()),
                Err(reason) => Err(joined("invalid payload: ", reason.as_str())),
            },
            None => Err("missing payload".to_owned()),
        }
    }
}

/// The best window of a periodic-box search.
#[derive(Clone, Copy, Debug, PartialEq, Eq, Structural)]
pub struct BoxPeriodResult {
    pub best_frequency: Bits32,
    pub best_score: Bits32,
    pub best_phase: Bits32,
    pub best_duration_fraction: Bits32,
    pub best_frequency_index: usize,
    pub best_duration_index: usize,
    pub best_phase_bin: usize,
    pub in_box_samples: usize,
    pub out_of_box_samples: usize,
}

/// The strongest frequency of a Lomb-Scargle periodogram.
#[derive(Clone, Copy, Debug, PartialEq, Eq, Structural)]
pub struct LombResult {
    pub best_frequency: Bits32,
    pub best_period_days: Bits32,
    pub best_power: Bits32,
    pub best_frequency_index: usize,
}

/// The outcome of a work unit as it is reported.
pub struct WorkResult {
    pub work_unit_id: String,
    pub node_id: String,
    pub status: ResultStatus,
    pub duration: Bits64,
    pub payload: Option<WorkResultPayload>,
    pub error_message: Option<String>,
    pub failure_kind: Option<FailureKind>,
    pub best_frequency: Option<Bits32>,
    pub best_period_days: Option<Bits32>,
    pub best_power: Option<Bits32>,
}

#[derive(Clone, Copy, Debug, PartialEq, Eq, Structural)]
pub enum ResultStatus {
    Completed,
    Failed,
}

#[derive(Clone, Copy, Debug, PartialEq, Eq, Structural)]
pub struct ResultPayload {
    pub best_frequency: Bits32,
    pub best_period_days: Bits32,
    pub best_power: Bits32,
    pub best_frequency_index: usize,
    /// Present for CPU execution only; the other durations are backend-neutral.
    pub cpu_duration_seconds: Option<Bits64>,
    pub total_workload_duration_seconds: Bits64,
}

#[derive(Clone, Copy, Debug, PartialEq, Eq, Structural)]
pub struct BoxPeriodResultPayload {
    pub best_frequency: Bits32,
    pub best_score: Bits32,
    pub best_phase: Bits32,
    pub best_duration_fraction: Bits32,
    pub best_frequency_index: usize,
    pub best_duration_index: usize,
    pub best_phase_bin: usize,
    pub in_box_samples: usize,
    pub out_of_box_samples: usize,
    pub cpu_duration_seconds: Bits64,
    pub total_workload_duration_seconds: Bits64,
}

#[derive(Clone, Copy, Debug, PartialEq, Eq, Structural)]
pub enum WorkResultPayload {
    Lomb(ResultPayload),
    BoxPeriod(BoxPeriodResultPayload),
}

/// How long an execution took, and on which backend.
#[derive(Clone, Copy, Debug)]
pub struct ExecutionDuration {
    pub backend: &'static str,
    pub seconds: Bits64,
}

#[derive(Clone, Copy, Debug, PartialEq, Eq, Structural)]
pub enum FailureKind {
    Execution,
    WorkloadValidation,
    InvalidInput,
    EnvironmentUnavailable,
    TransportUnavailable,
    UnsupportedWorkload,
    Unknown,
}

pub struct ResultReceipt {
    pub accepted: bool,
    pub message: Option<String>,
}

/// The contents of a [`WorkResult`].
pub struct Report {
    pub work_unit_id: Seq<char>,
    pub node_id: Seq<char>,
    pub status: ResultStatus,
    pub duration: Bits64,
    pub payload: Option<WorkResultPayload>,
    pub error_message: Option<Seq<char>>,
    pub failure_kind: Option<FailureKind>,
    pub best_frequency: Option<Bits32>,
    pub best_period_days: Option<Bits32>,
    pub best_power: Option<Bits32>,
}

impl View for WorkResult {
    type V = Report;

    open spec fn view(&self) -> Report {
        Report {
            work_unit_id: self.work_unit_id@,
            node_id: self.node_id@,
            status: self.status,
            duration: self.duration,
            payload: self.payload,
            error_message: match self.error_message {
                Some(message) => Some(message@),
                None => None,
            },
            failure_kind: self.failure_kind,
            best_frequency: self.best_frequency,
            best_period_days: self.best_period_days,
            best_power: self.best_power,
        }
    }
}

/// The report of a finished Lomb-Scargle unit. The execution time is labelled
/// as CPU time only where a CPU spent it.
pub open spec fn completed_report(
    work_id: Seq<char>,
    node_id: Seq<char>,
    result: LombResult,
    backend: Seq<char>,
    seconds: Bits64,
    total_duration: Bits64,
) -> Report {
    Report {
        work_unit_id: work_id,
        node_id,
        status: ResultStatus::Completed,
        duration: total_duration,
        payload: Some(
            WorkResultPayload::Lomb(
                ResultPayload {
                    best_frequency: result.best_frequency,
                    best_period_days: result.best_period_days,
                    best_power: result.best_power,
                    best_frequency_index: result.best_frequency_index,
                    cpu_duration_seconds: if backend == "cpu"@ {
                        Some(seconds)
                    } else {
                        None
                    },
                    total_workload_duration_seconds: total_duration,
                },
            ),
        ),
        error_message: None,
        failure_kind: None,
        best_frequency: Some(result.best_frequency),
        best_period_days: Some(result.best_period_days),
        best_power: Some(result.best_power),
    }
}

/// The report of a finished periodic-box unit: everything is in the payload.
pub open spec fn completed_box_period_report(
    work_id: Seq<char>,
    node_id: Seq<char>,
    result: BoxPeriodResult,
    seconds: Bits64,
    total_duration: Bits64,
) -> Report {
    Report {
        work_unit_id: work_id,
        node_id,
        status: ResultStatus::Completed,
        duration: total_duration,
        payload: Some(
            WorkResultPayload::BoxPeriod(
                BoxPeriodResultPayload {
                    best_frequency: result.best_frequency,
                    best_score: result.best_score,
                    best_phase: result.best_phase,
                    best_duration_fraction: result.best_duration_fraction,
                    best_frequency_index: result.best_frequency_index,
                    best_duration_index: result.best_duration_index,
                    best_phase_bin: result.best_phase_bin,
                    in_box_samples: result.in_box_samples,
                    out_of_box_samples: result.out_of_box_samples,
                    cpu_duration_seconds: seconds,
                    total_workload_duration_seconds: total_duration,
                },
            ),
        ),
        error_message: None,
        failure_kind: None,
        best_frequency: None,
        best_period_days: None,
        best_power: None,
    }
}

/// The report of a failed unit.
pub open spec fn failed_report(
    work_id: Seq<char>,
    node_id: Seq<char>,
    duration: Bits64,
    kind: FailureKind,
    message: Seq<char>,
) -> Report {
    Report {
        work_unit_id: work_id,
        node_id,
        status: ResultStatus::Failed,
        duration,
        payload: None,
        error_message: Some(message),
        failure_kind: Some(kind),
        best_frequency: None,
        best_period_days: None,
        best_power: None,
    }
}

impl WorkResult {
    pub fn completed(
        work_id: &str,
        node_id: &str,
        result: LombResult,
        execution_duration: ExecutionDuration,
        total_duration: Bits64,
    ) -> (r: WorkResult)
        ensures
            r@ == completed_report(
                work_id@,
                node_id@,
                result,
                execution_duration.backend@,
                execution_duration.seconds,
                total_duration,
            ),
    {
        let cpu_duration_seconds = if same_text(execution_duration.backend, "cpu") {
            Some(execution_duration.seconds)
        } else {
            None
        };
        WorkResult {
            work_unit_id: work_id.to_owned(),
            node_id: node_id.to_owned(),
            status: ResultStatus::Completed,
            duration: total_duration,
            payload: Some(
                WorkResultPayload::Lomb(
                    ResultPayload {
                        best_frequency: result.best_frequency,
                        best_period_days: result.best_period_days,
                        best_power: result.best_power,
                        best_frequency_index: result.best_frequency_index,
                        cpu_duration_seconds,
                        total_workload_duration_seconds: total_duration,
                    },
                ),
            ),
            error_message: None,
            failure_kind: None,
            best_frequency: Some(result.best_frequency),
            best_period_days: Some(result.best_period_days),
            best_power: Some(result.best_power),
        }
    }

    pub fn completed_box_period(
        work_id: &str,
        node_id: &str,
        result: BoxPeriodResult,
        execution_duration: ExecutionDuration,
        total_duration: Bits64,
    ) -> (r: WorkResult)
        requires
            execution_duration.backend@ == "cpu"@,
        ensures
            r@ == completed_box_period_report(
                work_id@,
                node_id@,
                result,
                execution_duration.seconds,
                total_duration,
            ),
    {
        WorkResult {
            work_unit_id: work_id.to_owned(),
            node_id: node_id.to_owned(),
            status: ResultStatus::Completed,
            duration: total_duration,
            payload: Some(
                WorkResultPayload::BoxPeriod(
                    BoxPeriodResultPayload {
                        best_frequency: result.best_frequency,
                        best_score: result.best_score,
                        best_phase: result.best_phase,
                        best_duration_fraction: result.best_duration_fraction,
                        best_frequency_index: result.best_frequency_index,
                        best_duration_index: result.best_duration_index,
                        best_phase_bin: result.best_phase_bin,
                        in_box_samples: result.in_box_samples,
                        out_of_box_samples: result.out_of_box_samples,
                        cpu_duration_seconds: execution_duration.seconds,
                        total_workload_duration_seconds: total_duration,
                    },
                ),
            ),
            error_message: None,
            failure_kind: None,
            best_frequency: None,
            best_period_days: None,
            best_power: None,
        }
    }

    pub fn failed(
        work_id: &str,
        node_id: &str,
        duration: Bits64,
        kind: FailureKind,
        message: String,
    ) -> (r: WorkResult)
        ensures
            r@ == failed_report(work_id@, node_id@, duration, kind, message@),
    {
        WorkResult {
            work_unit_id: work_id.to_owned(),
            node_id: node_id.to_owned(),
            status: ResultStatus::Failed,
            duration,
            payload: None,
            error_message: Some(message),
            failure_kind: Some(kind),
            best_frequency: None,
            best_period_days: None,
            best_power: None,
        }
    }
}

} // verus!
