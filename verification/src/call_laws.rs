//! What holds of calls: how the results of functions relate to their arguments
//! and to the results of other calls.

use crate::backend::{
    input_outcome, BackendChoice, BackendError, BackendKind, SelectedBackend,
};
use crate::batch::{backend_failure_kind, is_homogeneous, BatchAction, BatchEvent, BatchRun, Job};
use crate::box_laws::an_unbeaten_candidate_leads;
use crate::box_period_search::{
    best_candidate, box_result, unbeaten, BoxPeriodError, BoxTables, Candidate,
};
use crate::client::{Body, Coordinator, Method, Request, RequestError};
use crate::config::{
    directory_created, new_identity, read_again, store_attempted, stored_identity, stored_read,
    Config, Identity, NewIdentity, StoreAttempt, StoredRead,
};
use crate::float_bits::{Bits32, Bits64};
use crate::json::Json;
use crate::kernel::{refinement_bounds, validated, ComputeError, Derived, GridPoint};
use crate::kernel_laws::{leads, reports_point};
use crate::memory::mem_total;
use crate::outside::{joined_url, parsed_url, parsed_uuid};
use crate::protocol::{
    BoxPeriodPayload, BoxPeriodResult, Dataset, ExecutionDuration, FailureKind, LombPayload,
    LombResult, Registration, WorkResult, WorkUnit,
};
use crate::protocol_laws::{a_box_report_says_what_was_found, holds, says, says_text};
use crate::retry::{capped, doubled, extended};
use crate::vulkan::{
    allowed_type, choose_memory_type, device_outcome, finish_refinement, grow_buffer, host_memory,
    plan_dispatch, plan_refinement, Dispatch, Refinement, RefinementReport,
};
use crate::worker::{compute_threads, Claim, Run, RunAction, RunEvent, Worker, WorkerError};
use vstd::prelude::*;

verus! {

/// Asking a dataset for its series gives the coordinates first, whichever names
/// its fields have.
pub proof fn series_come_coordinates_first(
    older: Dataset,
    newer: Dataset,
    x: Vec<Bits32>,
    y: Vec<Bits32>,
    a: Option<(&[Bits32], &[Bits32])>,
    b: Option<(&[Bits32], &[Bits32])>,
)
    requires
        older.times == Some(x),
        older.flux == Some(y),
        older.coordinates is None || older.values is None,
        newer.coordinates == Some(x),
        newer.values == Some(y),
        call_ensures(Dataset::series, (&older,), a),
        call_ensures(Dataset::series, (&newer,), b),
    ensures
        a is Some && b is Some,
        a->Some_0.0@ == x@ && a->Some_0.1@ == y@,
        b->Some_0.0@ == x@ && b->Some_0.1@ == y@,
{
}

/// A batch that is found homogeneous has one project, one dataset and one
/// workload; and a batch of which that holds is found homogeneous.
pub proof fn homogeneous_batches_have_one_of_each(units: Vec<WorkUnit>, r: bool)
    requires
        call_ensures(is_homogeneous, (&units,), r),
        units@.len() > 0,
    ensures
        r <==> forall|i: int, j: int|
            #![trigger units@[i], units@[j]]
            0 <= i < units@.len() && 0 <= j < units@.len() ==> units@[i].project_id@
                == units@[j].project_id@ && units@[i].dataset_id@ == units@[j].dataset_id@
                && units@[i].workload_id@ == units@[j].workload_id@,
{
    if r {
        assert forall|i: int, j: int|
            #![trigger units@[i], units@[j]]
            0 <= i < units@.len() && 0 <= j < units@.len() implies units@[i].project_id@
            == units@[j].project_id@ && units@[i].dataset_id@ == units@[j].dataset_id@
            && units@[i].workload_id@ == units@[j].workload_id@ by {
            assert(crate::batch::alike(units@[i], units@[0]));
            assert(crate::batch::alike(units@[j], units@[0]));
        }
    }
}

/// Every parameter that is asked for is the field of its name, in a payload
/// object and beside it.
pub proof fn parameters_keep_their_names(
    unit: WorkUnit,
    r: Result<LombPayload, String>,
)
    requires
        call_ensures(WorkUnit::lomb_payload, (&unit,), r),
        r is Ok,
    ensures
        unit.payload is None ==> {
            &&& unit.start_frequency == Some(r->Ok_0.start_frequency)
            &&& unit.frequency_step == Some(r->Ok_0.frequency_step)
            &&& unit.frequency_count == Some(r->Ok_0.frequency_count)
            &&& unit.frequency_start_index is Some ==> unit.frequency_start_index == Some(
                r->Ok_0.frequency_start_index,
            )
            &&& unit.frequency_start_index is None ==> r->Ok_0.frequency_start_index == 0
        },
        unit.payload is Some ==> unit.payload->Some_0.lomb is Ok && ({
            let given = unit.payload->Some_0.lomb->Ok_0;
            &&& given.start_frequency == r->Ok_0.start_frequency
            &&& given.frequency_step == r->Ok_0.frequency_step
            &&& given.frequency_count == r->Ok_0.frequency_count
            &&& given.frequency_start_index == r->Ok_0.frequency_start_index
        }),
{
}

/// A search for boxes reports the fraction of the circle at the phase bin that it
/// reports, the frequency at the index that it reports, and the score and the
/// sample counts of the candidate with that index.
pub proof fn a_box_search_reports_one_candidate(
    dataset: Dataset,
    payload: BoxPeriodPayload,
    last_frequency: Bits32,
    candidates: &[Option<Candidate>],
    tables: BoxTables,
    r: Result<BoxPeriodResult, BoxPeriodError>,
    i: int,
)
    requires
        candidates@.len() == payload.frequency_count,
        payload.frequency_start_index + payload.frequency_count <= usize::MAX,
        forall|k: int|
            0 <= k < candidates@.len() ==> (#[trigger] candidates@[k] matches Some(c)
                ==> c.frequency_index == k),
        call_ensures(
            crate::box_period_search::execute,
            (&dataset, &payload, last_frequency, candidates, &tables),
            r,
        ),
        r is Ok,
        0 <= i < candidates@.len(),
    ensures
        ({
            let result = r->Ok_0;
            let at = result.best_frequency_index - payload.frequency_start_index;
            &&& 0 <= at < candidates@.len()
            &&& candidates@[at] is Some
            &&& result.best_frequency == tables.frequencies@[at]
            &&& result.best_phase == tables.bin_fractions@[result.best_phase_bin as int]
            &&& result.best_phase_bin == candidates@[at]->Some_0.phase_bin
            &&& result.best_duration_fraction
                == tables.bin_fractions@[candidates@[at]->Some_0.duration_bins as int]
            &&& result.best_duration_index == candidates@[at]->Some_0.duration_index
            &&& result.best_score == candidates@[at]->Some_0.score
            &&& result.in_box_samples == candidates@[at]->Some_0.in_box_samples
            &&& result.out_of_box_samples == candidates@[at]->Some_0.out_of_box_samples
            &&& candidates@[i] is Some ==> candidates@[i]->Some_0.score.rank()
                <= result.best_score.rank() && (candidates@[i]->Some_0.score.rank()
                == result.best_score.rank() ==> at <= i)
        }),
{
    let c = choose|c: Candidate| #[trigger]
        unbeaten(candidates@, c) && r->Ok_0 == box_result(payload@, tables, c);
    let j = choose|j: int| 0 <= j < candidates@.len() && candidates@[j] == Some(c);
    assert(candidates@[j] == Some(c));
    if candidates@[i] is Some {
        an_unbeaten_candidate_leads(candidates@, c, i);
    }
}

/// A Lomb-Scargle search reports the first point of the greatest power, and that
/// point's frequency and period.
pub proof fn a_lomb_search_reports_one_point(
    dataset: Dataset,
    p: LombPayload,
    derived: Derived,
    points: &[GridPoint],
    r: Result<LombResult, ComputeError>,
)
    requires
        call_ensures(crate::kernel::execute, (&dataset, &p, &derived, points), r),
        r is Ok,
    ensures
        exists|w: int| #[trigger]
            leads(points@, w) && reports_point(r->Ok_0, points@[w], p.frequency_start_index + w),
{
    crate::kernel_laws::a_search_reports_the_leading_point(dataset, p, derived, points@);
}

/// A box search that is reported and written as JSON gives each of its counts
/// under its own name.
pub proof fn reported_boxes_keep_their_counts(
    work_id: &str,
    node_id: &str,
    result: BoxPeriodResult,
    duration: ExecutionDuration,
    total_duration: Bits64,
    report: WorkResult,
    j: Json,
)
    requires
        call_ensures(
            WorkResult::completed_box_period,
            (work_id, node_id, result, duration, total_duration),
            report,
        ),
        call_ensures(WorkResult::to_json, (&report,), j),
    ensures
        says_text(j, "workUnitID"@, work_id@),
        says_text(j, "nodeID"@, node_id@),
        exists|found: Json| #[trigger]
            holds(j, "payload"@, found) && {
                &&& says(found, "inBoxSamples"@, Json::Count(result.in_box_samples))
                &&& says(found, "outOfBoxSamples"@, Json::Count(result.out_of_box_samples))
                &&& says(found, "bestPhaseBin"@, Json::Count(result.best_phase_bin))
                &&& says(found, "bestDurationIndex"@, Json::Count(result.best_duration_index))
                &&& says(found, "bestFrequencyIndex"@, Json::Count(result.best_frequency_index))
                &&& says(found, "bestPhase"@, Json::Number32(result.best_phase))
                &&& says(
                    found,
                    "bestDurationFraction"@,
                    Json::Number32(result.best_duration_fraction),
                )
                &&& says(found, "bestFrequency"@, Json::Number32(result.best_frequency))
                &&& says(found, "bestScore"@, Json::Number32(result.best_score))
                &&& says(found, "cpuDurationSeconds"@, Json::Number64(duration.seconds))
                &&& says(found, "totalWorkloadDurationSeconds"@, Json::Number64(total_duration))
            },
{
    a_box_report_says_what_was_found(
        report,
        j,
        work_id@,
        node_id@,
        result,
        duration.seconds,
        total_duration,
    );
}

/// Datasets are asked for and everything else is handed over; a claim of one unit
/// and a claim of several go to one place, a registration to another. What cannot
/// be addressed is not sent, for the reason of the address.
pub proof fn requests_go_where_they_belong(
    client: Coordinator,
    registration: Registration,
    node_id: &str,
    count: usize,
    work: WorkUnit,
    body: &[u8],
    registered: Result<Request, RequestError>,
    claimed: Result<Request, RequestError>,
    several: Result<Request, RequestError>,
    fetched: Result<Request, RequestError>,
    submitted: Result<Request, RequestError>,
)
    requires
        call_ensures(Coordinator::register, (&client, &registration), registered),
        call_ensures(Coordinator::claim, (&client, node_id), claimed),
        call_ensures(Coordinator::claim_batch, (&client, node_id, count), several),
        call_ensures(Coordinator::dataset, (&client, &work), fetched),
        call_ensures(Coordinator::submit_bytes, (&client, node_id, body), submitted),
    ensures
        claimed is Ok <==> several is Ok,
        claimed is Ok ==> claimed->Ok_0.url@ == several->Ok_0.url@,
        claimed is Ok ==> claimed->Ok_0.method == Method::Post && claimed->Ok_0.body is Json
            && says_text(claimed->Ok_0.body->Json_0, "nodeID"@, node_id@),
        several is Ok ==> several->Ok_0.method == Method::Post && several->Ok_0.body is Json
            && says_text(several->Ok_0.body->Json_0, "nodeID"@, node_id@) && says(
            several->Ok_0.body->Json_0,
            "maxWorkUnits"@,
            Json::Count(count),
        ),
        registered is Ok ==> registered->Ok_0.method == Method::Post && registered->Ok_0.body is Json
            && says_text(registered->Ok_0.body->Json_0, "nodeID"@, registration.node_id@),
        fetched is Ok ==> fetched->Ok_0.method == Method::Get && fetched->Ok_0.body is Empty,
        submitted is Ok ==> submitted->Ok_0.method == Method::Post && submitted->Ok_0.body is Bytes
            && submitted->Ok_0.body->Bytes_0@ == body@,
        registered is Ok ==> joined_url(client.base@, "v1/nodes/register"@) == Ok::<
            Seq<char>,
            Seq<char>,
        >(registered->Ok_0.url@),
        claimed is Ok ==> joined_url(client.base@, "v1/work/claim"@) == Ok::<Seq<char>, Seq<char>>(
            claimed->Ok_0.url@,
        ),
        fetched is Ok ==> joined_url(
            client.base@,
            "v1/projects/"@ + work.project_id@ + "/datasets/"@ + work.dataset_id@,
        ) == Ok::<Seq<char>, Seq<char>>(fetched->Ok_0.url@),
        submitted is Ok ==> joined_url(client.base@, "v1/work/"@ + node_id@ + "/result"@) == Ok::<
            Seq<char>,
            Seq<char>,
        >(submitted->Ok_0.url@),
        claimed is Err ==> claimed->Err_0 is Url && joined_url(client.base@, "v1/work/claim"@)
            == Err::<Seq<char>, Seq<char>>(claimed->Err_0->Url_0@),
        registered is Err ==> registered->Err_0 is Url && joined_url(
            client.base@,
            "v1/nodes/register"@,
        ) == Err::<Seq<char>, Seq<char>>(registered->Err_0->Url_0@),
        fetched is Err ==> fetched->Err_0 is Url && joined_url(
            client.base@,
            "v1/projects/"@ + work.project_id@ + "/datasets/"@ + work.dataset_id@,
        ) == Err::<Seq<char>, Seq<char>>(fetched->Err_0->Url_0@),
        submitted is Err ==> submitted->Err_0 is Url && joined_url(
            client.base@,
            "v1/work/"@ + node_id@ + "/result"@,
        ) == Err::<Seq<char>, Seq<char>>(submitted->Err_0->Url_0@),
{
    if claimed is Ok && several is Ok {
        let one = crate::protocol::ClaimRequest { node_id };
        let many = crate::protocol::BatchClaimRequest { node_id, max_work_units: count };
        crate::protocol_laws::claims_say_who_asks_for_how_much(
            one,
            many,
            claimed->Ok_0.body->Json_0,
            several->Ok_0.body->Json_0,
        );
    }
    if registered is Ok {
        crate::protocol_laws::a_registration_says_what_the_node_can_do(
            registration,
            registered->Ok_0.body->Json_0,
        );
    }
}

/// A dispatch tells the device how many samples and frequencies there are and
/// where its grid begins, how it rises and how powers are normalized, in this
/// order. Four bytes are set aside for each number.
pub proof fn a_dispatch_describes_the_grid(
    dataset: Dataset,
    p: LombPayload,
    derived: Derived,
    r: Result<Dispatch, BackendError>,
)
    requires
        call_ensures(plan_dispatch, (&dataset, &p, &derived), r),
        r is Ok,
    ensures
        dataset.series_spec() is Some,
        r->Ok_0.push_constants@.len() == 5,
        r->Ok_0.push_constants@[0] == dataset.series_spec()->Some_0.0.len(),
        r->Ok_0.push_constants@[1] == p.frequency_count,
        r->Ok_0.push_constants@[2] == p.start_frequency.bits,
        r->Ok_0.push_constants@[3] == p.frequency_step.bits,
        r->Ok_0.push_constants@[4] == derived.normalization.bits,
        r->Ok_0.x_size == 4 * dataset.series_spec()->Some_0.0.len(),
        r->Ok_0.y_size == r->Ok_0.x_size,
        r->Ok_0.output_size == 4 * p.frequency_count,
        64 * (r->Ok_0.workgroups - 1) < p.frequency_count <= 64 * r->Ok_0.workgroups,
{
}

/// A search that could be run on the CPU is refused for the device only where the
/// samples or the frequencies cannot be counted with 32 bits; any other is refused
/// as it would be on the CPU.
pub proof fn a_device_takes_what_it_can_count(
    dataset: Dataset,
    p: LombPayload,
    derived: Derived,
    r: Result<Dispatch, BackendError>,
)
    requires
        call_ensures(plan_dispatch, (&dataset, &p, &derived), r),
    ensures
        r is Ok <==> validated(dataset, p, derived) is Ok
            && dataset.series_spec()->Some_0.0.len() <= 0xffff_ffff && p.frequency_count
            <= 0xffff_ffff,
        validated(dataset, p, derived) is Ok && r is Err ==> r->Err_0 == BackendError::InvalidInput(
            ComputeError::InvalidCount,
        ),
        validated(dataset, p, derived) is Err ==> r is Err && r->Err_0
            == BackendError::InvalidInput(validated(dataset, p, derived)->Err_0),
{
}

/// Memory is chosen only where the buffer may live in it, which the bit of its
/// index says, and where the host can map it and need not flush it. No memory
/// type before it would do, and where any would, one is chosen.
pub proof fn chosen_memory_is_usable(type_bits: u32, flags: &[u32], r: Option<u32>, i: u32)
    requires
        flags@.len() <= 32,
        call_ensures(choose_memory_type, (type_bits, flags), r),
        i < flags@.len(),
    ensures
        r matches Some(index) ==> index < flags@.len() && type_bits & (1u32 << index) != 0
            && flags@[index as int] & 2 == 2 && flags@[index as int] & 4 == 4,
        type_bits & (1u32 << i) != 0 && flags@[i as int] & 2 == 2 && flags@[i as int] & 4 == 4
            ==> r is Some && r->Some_0 <= i,
{
    assert(i < 32 ==> ((type_bits >> i) & 1 == 1 <==> type_bits & (1u32 << i) != 0)) by (
    bit_vector);
    if let Some(k) = r {
        assert(k < 32 ==> ((type_bits >> k) & 1 == 1 <==> type_bits & (1u32 << k) != 0)) by (
        bit_vector);
    }
    assert(allowed_type(type_bits, i as int) <==> type_bits & (1u32 << i) != 0);
    assert(host_memory(flags@[i as int]) <==> flags@[i as int] & 2 == 2 && flags@[i as int] & 4
        == 4);
}

/// A buffer is replaced only by a larger one, which holds what is required; one
/// that was just grown is not grown again for as much or less.
pub proof fn buffers_only_grow(
    capacity: u64,
    required: usize,
    later: usize,
    r: Option<u64>,
    again: Option<u64>,
)
    requires
        call_ensures(grow_buffer, (capacity, required), r),
        r matches Some(size) ==> call_ensures(grow_buffer, (size, later), again),
        later <= required,
    ensures
        r matches Some(size) ==> size > capacity && size >= required && size >= 4 && (size
            == required || size == 4) && again is None,
        r is None ==> capacity >= required && capacity >= 4,
{
}

/// A refinement is planned round the first of the greatest powers that the device
/// computed: it holds that power, and reaches 128 frequencies to either side or to
/// the end of the chunk.
pub proof fn a_refinement_is_planned_round_the_winner(
    p: LombPayload,
    powers: &[Bits32],
    r: Result<Refinement, BackendError>,
    i: int,
)
    requires
        call_ensures(plan_refinement, (&p, powers), r),
        r is Ok,
        0 <= i < powers@.len(),
    ensures
        powers@.len() == p.frequency_count,
        r->Ok_0.winner < powers@.len(),
        r->Ok_0.power == powers@[r->Ok_0.winner as int],
        powers@[i].rank() <= r->Ok_0.power.rank(),
        i < r->Ok_0.winner ==> powers@[i].rank() < r->Ok_0.power.rank(),
        r->Ok_0.start <= i <= r->Ok_0.end <==> -128 <= i - r->Ok_0.winner <= 128,
{
    let plain = crate::kernel::powers_of(crate::kernel::enumerated(powers@));
    assert(plain =~= powers@);
    crate::kernel::strongest_is_unique(powers@);
}

/// A finished refinement keeps the result that was found and says how far it lies
/// from the device's winner. It lies on an edge that the radius made only where
/// the chunk goes on beyond that edge.
pub proof fn a_finished_refinement_keeps_its_result(
    p: LombPayload,
    refinement: Refinement,
    found: Result<LombResult, ComputeError>,
    r: Result<(LombResult, RefinementReport), BackendError>,
)
    requires
        call_ensures(finish_refinement, (&p, &refinement, found), r),
    ensures
        r is Ok <==> found is Ok && found->Ok_0.best_frequency_index >= p.frequency_start_index,
        r matches Ok((kept, report)) ==> {
            &&& kept == found->Ok_0
            &&& p.frequency_start_index + report.refined_winner == kept.best_frequency_index
            &&& report.refined_winner == refinement.winner + report.distance_bins
                || refinement.winner == report.refined_winner + report.distance_bins
            &&& report.clamped_at_chunk_start <==> refinement.start == 0
            &&& report.clamped_at_chunk_end <==> refinement.end + 1 == p.frequency_count
            &&& report.clamped_at_chunk_start && report.refined_winner == refinement.start
                && report.refined_winner != refinement.end ==> !report.winner_on_radius_edge
            &&& report.winner_on_radius_edge ==> report.refined_winner == refinement.start
                || report.refined_winner == refinement.end
            &&& refinement.start < report.refined_winner < refinement.end
                ==> !report.winner_on_radius_edge
            &&& report.clamped_at_chunk_end && report.refined_winner == refinement.end
                && report.refined_winner != refinement.start ==> !report.winner_on_radius_edge
            &&& !report.clamped_at_chunk_start && report.refined_winner == refinement.start
                ==> report.winner_on_radius_edge
            &&& refinement.end + 1 < p.frequency_count && report.refined_winner == refinement.end
                ==> report.winner_on_radius_edge
        },
{
}

/// A node that stored a fresh identity has it, and finds the same one when it
/// starts again. Where another process was first, the stored one is read, and
/// both processes have that.
pub proof fn an_identity_survives(
    id: u128,
    fresh: NewIdentity,
    stored: Identity,
    meanwhile: Identity,
    restarted: Identity,
    contents: String,
    first: Identity,
    second: Identity,
)
    requires
        call_ensures(new_identity, (id,), fresh),
        call_ensures(store_attempted, (fresh.id, StoreAttempt::Stored), stored),
        call_ensures(store_attempted, (fresh.id, StoreAttempt::AlreadyStored), meanwhile),
        call_ensures(stored_read, (StoredRead::Contents(fresh.contents),), restarted),
        call_ensures(stored_read, (StoredRead::Contents(contents),), first),
        call_ensures(read_again, (Ok(contents),), second),
    ensures
        fresh.id == id,
        fresh.contents@.len() == 37 && fresh.contents@.last() == '\n',
        stored == Identity::Known(id),
        restarted == stored,
        meanwhile is ReadAgain,
        first is Known <==> second is Known,
        first is Known ==> first == second,
        first is Known || first is Failed,
{
    reveal_strlit("\n");
    let one = choose|part: Seq<char>| #[trigger]
        crate::text::trimmed(contents@, part) && match parsed_uuid(part) {
            Ok(id) => first == Identity::Known(id),
            Err(reason) => first matches Identity::Failed(text) && text@ == reason,
        };
    let other = choose|part: Seq<char>| #[trigger]
        crate::text::trimmed(contents@, part) && match parsed_uuid(part) {
            Ok(id) => second == Identity::Known(id),
            Err(reason) => second matches Identity::Failed(text) && text@ == reason,
        };
    crate::text::trimmed_is_unique(contents@, one, other);
}

/// A configured identity is taken and nothing is read. Without one, the stored one
/// is looked for first, and only where none is stored is a directory made for a
/// fresh one. Every failure on the way ends the search with its reason.
pub proof fn an_identity_is_looked_for_in_order(
    config: Config,
    reason: String,
    begun: Identity,
    missing: Identity,
    unreadable: Identity,
    made: Identity,
    unmade: Identity,
    unstored: Identity,
    unread: Identity,
)
    requires
        call_ensures(Config::node_identity, (&config,), begun),
        call_ensures(stored_read, (StoredRead::NotFound,), missing),
        call_ensures(stored_read, (StoredRead::Failed(reason),), unreadable),
        call_ensures(directory_created, (Ok(()),), made),
        call_ensures(directory_created, (Err(reason),), unmade),
        call_ensures(store_attempted, (0, StoreAttempt::Failed(reason)), unstored),
        call_ensures(read_again, (Err(reason),), unread),
    ensures
        config.node_id matches Some(id) ==> begun == Identity::Known(id),
        config.node_id is None ==> begun is ReadStored,
        missing is CreateDirectory,
        made is Store,
        stored_identity(made->Store_0.contents@, Identity::Known(made->Store_0.id)) || forall|
            again: Identity,
        | !#[trigger] stored_identity(made->Store_0.contents@, again),
        unreadable == Identity::Failed(reason),
        unmade == Identity::Failed(reason),
        unstored == Identity::Failed(reason),
        unread == Identity::Failed(reason),
{
}

/// As many threads compute as were configured; without a number, as many as the
/// machine offers; and one where it does not say.
pub proof fn configured_threads_come_first(
    config: Config,
    available: Option<usize>,
    r: usize,
)
    requires
        call_ensures(compute_threads, (&config, available), r),
    ensures
        config.cpu_threads is Some ==> Some(r) == config.cpu_threads,
        config.cpu_threads is None && available is Some ==> Some(r) == available,
        config.cpu_threads is None && available is None ==> r == 1,
{
}

/// A worker keeps the settings, the backend and the identity it was set up with,
/// and is set up only with settings in range. What it tells of itself names them:
/// its identity, its GPU, and its backend both for itself and for the one
/// workload it offers.
pub proof fn a_worker_introduces_itself(
    config: Config,
    identity: u128,
    backend: SelectedBackend,
    r: Result<Worker, WorkerError>,
    arch: &str,
    processors: usize,
    memory: Bits32,
    registration: Registration,
)
    requires
        call_ensures(Worker::new, (config, identity, backend), r),
        r matches Ok(worker) ==> call_ensures(
            Worker::registration,
            (&worker, arch, processors, memory),
            registration,
        ),
    ensures
        r is Err && r->Err_0 is Config <==> config.fault() is Some,
        r is Ok ==> {
            &&& r->Ok_0@.config == config
            &&& r->Ok_0@.backend == backend
            &&& r->Ok_0@.client.timeout == config.request_timeout_secs
            &&& registration.node_id@ == crate::outside::uuid_text(identity)
            &&& registration.capabilities.processor_count == processors
            &&& registration.capabilities.memory_gb == memory
            &&& parsed_url(config.coordinator_url@) == Ok::<Seq<char>, Seq<char>>(
                r->Ok_0@.client.base@,
            )
            &&& registration.capabilities.platform@ == "linux"@
            &&& arch@.is_prefix_of(registration.capabilities.hardware_identifier@)
            &&& backend.gpu_name is None ==> registration.capabilities.gpu_name@ == "none"@
            &&& backend.gpu_name matches Some(name) ==> registration.capabilities.gpu_name@
                == name@
            &&& registration.capabilities.compute_backends@.len() == 1
            &&& backend.kind == BackendKind::Cpu
                ==> registration.capabilities.compute_backends@[0].id@ == "cpu"@
            &&& backend.kind == BackendKind::Vulkan
                ==> registration.capabilities.compute_backends@[0].id@ == "vulkan"@
            &&& registration.capabilities.workloads@.len() == 1
            &&& registration.capabilities.workloads@[0].workload_id@ == "openstar.lomb-scargle.v1"@
            &&& registration.capabilities.workloads@[0].execution_backends@.len() == 1
            &&& registration.capabilities.workloads@[0].execution_backends@[0].id@
                == registration.capabilities.compute_backends@[0].id@
            &&& registration.capabilities.workloads@[0].validator_id is None
        },
        r is Err && r->Err_0 is Request ==> r->Err_0->Request_0 is Url && parsed_url(
            config.coordinator_url@,
        ) == Err::<Seq<char>, Seq<char>>(r->Err_0->Request_0->Url_0@),
{
    if r is Ok {
        let text = arch@ + " Linux CPU"@;
        assert(text.subrange(0, arch@.len() as int) =~= arch@);
    }
}

/// Reading the name of a choice gives that choice back, and nothing but the name
/// of a choice can be read.
pub proof fn written_choices_read_back(
    choice: BackendChoice,
    name: &'static str,
    r: Option<BackendChoice>,
    text: &str,
    other: Option<BackendChoice>,
)
    requires
        call_ensures(BackendChoice::name, (choice,), name),
        call_ensures(BackendChoice::parse, (name,), r),
        call_ensures(BackendChoice::parse, (text,), other),
    ensures
        r == Some(choice),
        other is Some <==> text@ == "auto"@ || text@ == "cpu"@ || text@ == "vulkan"@,
        choice == BackendChoice::Auto ==> name@ == "auto"@,
        choice == BackendChoice::Cpu ==> name@ == "cpu"@,
        choice == BackendChoice::Vulkan ==> name@ == "vulkan"@,
{
    assert(BackendChoice::Auto.name_spec() == "auto"@);
    assert(BackendChoice::Cpu.name_spec() == "cpu"@);
    assert(BackendChoice::Vulkan.name_spec() == "vulkan"@);
    assert(choice.name_spec() == name@);
    if let Some(found) = r {
        crate::backend::choice_names_are_distinct(choice, found);
    }
}

/// No wait exceeds its ceiling. Below it a capped wait is the wait, a doubled one
/// the wait twice, an extended one the wait and its extra.
pub proof fn waits_stay_below_their_ceiling(
    delay: u64,
    extra: u64,
    ceiling: u64,
    a: u64,
    b: u64,
    c: u64,
)
    requires
        call_ensures(capped, (delay, ceiling), a),
        call_ensures(doubled, (delay, ceiling), b),
        call_ensures(extended, (delay, extra, ceiling), c),
    ensures
        a <= ceiling && b <= ceiling && c <= ceiling,
        a < ceiling ==> a == delay,
        b < ceiling ==> b == delay + delay,
        c < ceiling ==> c == delay + extra,
        a == ceiling ==> delay >= ceiling,
        b == ceiling ==> delay + delay >= ceiling,
        c == ceiling ==> delay + extra >= ceiling,
{
}

/// The total memory is what stands between the gap after `MemTotal:` and the next
/// gap, in a text that begins with that line.
pub proof fn the_first_line_can_hold_the_total(
    text: &str,
    gap: Seq<char>,
    field: Seq<char>,
    rest: Seq<char>,
    r: Option<&str>,
)
    requires
        call_ensures(mem_total, (text,), r),
        gap.len() > 0,
        field.len() > 0,
        forall|i: int| 0 <= i < gap.len() ==> #[trigger] gap[i] == ' ',
        forall|i: int| 0 <= i < field.len() ==> '0' <= #[trigger] field[i] <= '9',
        rest.len() > 0,
        rest[0] == ' ' || rest[0] == '\n',
        text@ == "MemTotal:"@ + gap + field + rest,
    ensures
        r is Some,
        r->Some_0@ == field,
{
    crate::memory::a_first_line_holds_the_total(gap, field, rest);
}

/// After a claim that failed, a run pauses for its delay and at most a quarter
/// more, as far as the configured maximum allows.
pub proof fn a_pause_is_drawn_out_by_a_quarter_at_most(
    run: Run,
    stopping: bool,
    r: (Run, RunAction),
)
    requires
        run@.phase is Claiming,
        call_ensures(
            Run::handle,
            (run, RunEvent::Claimed { claim: Claim::Failed, stopping }),
            r,
        ),
    ensures
        r.1.next is Pause,
        r.1.next->Pause_0 <= run@.max_backoff,
        4 * r.1.next->Pause_0 <= 5 * run@.backoff,
        r.1.next->Pause_0 >= run@.backoff || r.1.next->Pause_0 == run@.max_backoff,
        r.1.launch is None,
{
    let event = RunEvent::Claimed { claim: Claim::Failed, stopping };
    let jitter = choose|jitter: u64|
        jitter <= run@.backoff / 4 && (r.0@, r.1@) == #[trigger] run@.step(event, jitter);
    assert(4 * jitter <= run@.backoff);
}

/// The unit that a driver is shown is the one that is reported: whatever has it
/// reported, the report carries its identifier and that of the node.
pub proof fn the_unit_that_is_shown_is_reported(
    before: BatchRun,
    event: BatchEvent,
    r: (BatchRun, BatchAction),
    shown: Option<&WorkUnit>,
)
    requires
        before@.wf(),
        call_ensures(BatchRun::handle, (before, event), r),
        r.1 is Encode,
        call_ensures(BatchRun::unit, (&r.0,), shown),
    ensures
        shown is Some,
        shown->Some_0.id@ == r.1->Encode_0.work_unit_id@,
        r.1->Encode_0.node_id@ == before@.node_id,
{
    assert(before@.step(event).1 is Encode);
}

/// The unit that a driver is shown stays the same until its result is submitted
/// for good, and computes what that unit asks for.
pub proof fn the_unit_that_is_shown_computes(
    before: BatchRun,
    event: BatchEvent,
    r: (BatchRun, BatchAction),
    asked: Option<&WorkUnit>,
    shown: Option<&WorkUnit>,
)
    requires
        before@.wf(),
        before@.stage is Fetch,
        call_ensures(BatchRun::unit, (&before,), asked),
        call_ensures(BatchRun::handle, (before, event), r),
        call_ensures(BatchRun::unit, (&r.0,), shown),
    ensures
        asked is Some && shown is Some && *asked->Some_0 == *shown->Some_0,
        r.1 is Compute && shown->Some_0.workload_id@ == "openstar.lomb-scargle.v1"@
            ==> shown->Some_0.lomb_payload_spec() is Ok && r.1->Compute_0
            == Job::Lomb(shown->Some_0.lomb_payload_spec()->Ok_0),
        r.1 is Compute && shown->Some_0.workload_id@ != "openstar.lomb-scargle.v1"@
            ==> shown->Some_0.box_period_payload_spec() is Ok && r.1->Compute_0 is BoxPeriod
            && r.1->Compute_0->BoxPeriod_0@ == shown->Some_0.box_period_payload_spec()->Ok_0,
{
    let act = before@.step(event).1;
    assert(r.1@ == act);
}

/// What is submitted is what was written down for the unit.
pub proof fn what_was_written_down_is_submitted(
    before: BatchRun,
    body: Vec<u8>,
    r: (BatchRun, BatchAction),
    shown: Option<&Vec<u8>>,
)
    requires
        before@.wf(),
        before@.stage is Encode,
        call_ensures(BatchRun::handle, (before, BatchEvent::Encoded { body }), r),
        call_ensures(BatchRun::body, (&r.0,), shown),
    ensures
        r.1 is Submit,
        shown is Some,
        shown->Some_0@ == body@,
{
}

/// A failure of the device is a failure of the execution and a fault of the input
/// is a fault of the input, in the words of either. What was computed is handed
/// on.
pub proof fn failures_keep_their_cause(
    value: LombResult,
    reason: String,
    error: ComputeError,
    computed: Result<LombResult, BackendError>,
    accepted: Result<LombResult, BackendError>,
    broken: Result<LombResult, BackendError>,
    refused: Result<LombResult, BackendError>,
    execution: FailureKind,
    input: FailureKind,
)
    requires
        call_ensures(device_outcome::<LombResult>, (Ok(value),), computed),
        call_ensures(input_outcome::<LombResult>, (Ok(value),), accepted),
        call_ensures(device_outcome::<LombResult>, (Err(reason),), broken),
        call_ensures(input_outcome::<LombResult>, (Err(error),), refused),
        broken is Err && refused is Err ==> call_ensures(
            backend_failure_kind,
            (&broken->Err_0,),
            execution,
        ) && call_ensures(backend_failure_kind, (&refused->Err_0,), input),
    ensures
        computed == Ok::<LombResult, BackendError>(value),
        accepted == Ok::<LombResult, BackendError>(value),
        broken is Err && broken->Err_0.message_spec() == reason@,
        refused is Err && refused->Err_0.message_spec() == error.message_spec(),
        execution is Execution,
        input is InvalidInput,
{
}

/// The range of indices round a winner is that of the bounds, holds the winner and
/// whatever lies at most 128 bins away within the chunk, and nothing else. A winner
/// outside the chunk has none.
pub proof fn a_range_holds_what_is_near(
    count: usize,
    winner: usize,
    bounds: Result<(usize, usize), ComputeError>,
    k: usize,
)
    requires
        call_ensures(refinement_bounds, (count, winner), bounds),
    ensures
        bounds is Ok <==> winner < count,
        bounds is Err ==> bounds->Err_0 is InvalidCount,
        bounds matches Ok((start, end)) ==> (start <= k <= end <==> k < count && -128 <= k - winner
            <= 128),
{
}

/// The best of the candidates is one of them, and there is one wherever there is a
/// candidate. No candidate has a greater score, and none with the same score an
/// earlier frequency.
pub proof fn the_best_candidate_leads(
    candidates: &[Option<Candidate>],
    best: Option<Candidate>,
    i: int,
)
    requires
        call_ensures(best_candidate, (candidates,), best),
        0 <= i < candidates@.len(),
        candidates@[i] is Some,
    ensures
        best is Some,
        candidates@.contains(best),
        candidates@[i]->Some_0.score.rank() <= best->Some_0.score.rank(),
        candidates@[i]->Some_0.score.rank() == best->Some_0.score.rank()
            ==> best->Some_0.frequency_index <= candidates@[i]->Some_0.frequency_index,
{
    let there = candidates@[i];
    assert(there is Some);
}

/// A search for boxes fails only where its inputs are refused or where no frequency
/// has a window, and says which.
pub proof fn a_box_search_fails_for_a_reason(
    dataset: Dataset,
    payload: BoxPeriodPayload,
    last_frequency: Bits32,
    candidates: &[Option<Candidate>],
    tables: BoxTables,
    r: Result<BoxPeriodResult, BoxPeriodError>,
    i: int,
)
    requires
        call_ensures(
            crate::box_period_search::execute,
            (&dataset, &payload, last_frequency, candidates, &tables),
            r,
        ),
        0 <= i < candidates@.len(),
    ensures
        r is Err && r->Err_0 is NoValidWindow ==> candidates@[i] is None
            && crate::box_period_search::validated(dataset, payload@, last_frequency) is Ok,
        r is Err && !(r->Err_0 is NoValidWindow) ==> crate::box_period_search::validated(
            dataset,
            payload@,
            last_frequency,
        ) == Err::<(Seq<Bits32>, Seq<Bits32>), BoxPeriodError>(r->Err_0),
        crate::box_period_search::validated(dataset, payload@, last_frequency) is Err ==> r is Err,
{
    crate::box_laws::box_input_errors_tell_a_defect(dataset, payload@, last_frequency);
}

} // verus!
