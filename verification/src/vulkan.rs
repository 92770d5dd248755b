//! Decisions of the Vulkan backend: which device, queue and memory to use, how
//! large buffers must be, what is dispatched, and how the powers that come
//! back lead to a result.

use crate::backend::BackendError;
use crate::float_bits::Bits32;
use crate::kernel::{
    chunk_winner, enumerated, executed, indexed_powers, indexed_powers_len, powers_of, refined,
    refinement_bounds, refinement_bounds_spec, refinement_is_a_bounded_neighbourhood,
    refinement_recovers_the_winner, searched_powers, searched_powers_len, select_winner, strongest,
    strongest_index, strongest_is_unique, validate, validated, ComputeError, Derived, GridPoint,
};
use crate::protocol::{Dataset, LombPayload, LombResult};
use vstd::prelude::*;

verus! {

/// The queue flag of graphics work.
pub const QUEUE_GRAPHICS: u32 = 1;

/// The queue flag of compute work.
pub const QUEUE_COMPUTE: u32 = 2;

/// The memory flag of memory that the host can map.
pub const MEMORY_HOST_VISIBLE: u32 = 2;

/// The memory flag of memory that needs no flushing.
pub const MEMORY_HOST_COHERENT: u32 = 4;

/// The device type of an integrated GPU.
pub const INTEGRATED_GPU: i32 = 1;

/// The device type of a discrete GPU.
pub const DISCRETE_GPU: i32 = 2;

/// The smallest buffer, in bytes.
pub const SMALLEST_BUFFER: usize = 4;

/// How many frequencies one workgroup evaluates.
pub const WORKGROUP_SIZE: u32 = 64;

/// A queue family that takes both graphics and compute work.
pub open spec fn graphics_and_compute(flags: u32) -> bool {
    flags & QUEUE_GRAPHICS == QUEUE_GRAPHICS && flags & QUEUE_COMPUTE == QUEUE_COMPUTE
}

/// The first queue family that takes both graphics and compute work. One that
/// takes compute work alone is never chosen.
pub open spec fn chosen_queue(flags: Seq<u32>, r: Option<u32>) -> bool {
    match r {
        Some(family) => {
            &&& family < flags.len()
            &&& graphics_and_compute(flags[family as int])
            &&& forall|i: int| 0 <= i < family ==> !graphics_and_compute(#[trigger] flags[i])
        },
        None => forall|i: int|
            0 <= i < flags.len() && i <= u32::MAX ==> !graphics_and_compute(#[trigger] flags[i]),
    }
}

pub fn choose_queue(flags: &[u32]) -> (r: Option<u32>)
    ensures
        chosen_queue(flags@, r),
{
    let mut i: usize = 0;
    while i < flags.len()
        invariant
            i <= flags@.len(),
            forall|k: int| 0 <= k < i ==> !graphics_and_compute(#[trigger] flags@[k]),
        decreases flags.len() - i,
    {
        if flags[i] & QUEUE_GRAPHICS == QUEUE_GRAPHICS && flags[i] & QUEUE_COMPUTE
            == QUEUE_COMPUTE {
            if i <= 0xffff_ffff {
                return Some(i as u32);
            }
            return None;
        }
        i += 1;
    }
    None
}

/// Prefers discrete GPUs to integrated ones, and those to anything else.
pub open spec fn device_rank_spec(kind: i32) -> u8 {
    if kind == DISCRETE_GPU {
        2
    } else if kind == INTEGRATED_GPU {
        1
    } else {
        0
    }
}

pub fn device_rank(kind: i32) -> (r: u8)
    ensures
        r == device_rank_spec(kind),
{
    if kind == DISCRETE_GPU {
        2
    } else if kind == INTEGRATED_GPU {
        1
    } else {
        0
    }
}

/// A device on offer: its type and the flags of its queue families.
pub struct DeviceOffer {
    pub kind: i32,
    pub queue_flags: Vec<u32>,
}

/// A device that was chosen, and its queue family.
#[derive(Clone, Copy, Debug, PartialEq, Eq, Structural)]
pub struct DeviceChoice {
    pub device: usize,
    pub queue_family: u32,
    pub rank: u8,
}

/// The device has a queue family that can be used.
pub open spec fn usable(offer: DeviceOffer) -> bool {
    exists|family: u32| chosen_queue(offer.queue_flags@, Some(family))
}

/// The first of the usable devices with the greatest rank.
pub open spec fn chosen_device(offers: Seq<DeviceOffer>, r: Option<DeviceChoice>) -> bool {
    match r {
        Some(choice) => {
            &&& choice.device < offers.len()
            &&& chosen_queue(
                offers[choice.device as int].queue_flags@,
                Some(choice.queue_family),
            )
            &&& choice.rank == device_rank_spec(offers[choice.device as int].kind)
            &&& forall|i: int|
                0 <= i < offers.len() && usable(#[trigger] offers[i]) ==> device_rank_spec(
                    offers[i].kind,
                ) <= choice.rank
            &&& forall|i: int|
                0 <= i < choice.device && usable(#[trigger] offers[i]) ==> device_rank_spec(
                    offers[i].kind,
                ) < choice.rank
        },
        None => forall|i: int| 0 <= i < offers.len() ==> !usable(#[trigger] offers[i]),
    }
}

pub fn choose_device(offers: &[DeviceOffer]) -> (r: Option<DeviceChoice>)
    ensures
        chosen_device(offers@, r),
{
    let mut best: Option<DeviceChoice> = None;
    let mut i: usize = 0;
    while i < offers.len()
        invariant
            i <= offers@.len(),
            chosen_device(offers@.take(i as int), best),
        decreases offers.len() - i,
    {
        let ghost before = offers@.take(i as int);
        let ghost after = offers@.take(i + 1);
        let ghost old_best = best;
        let queue = choose_queue(offers[i].queue_flags.as_slice());
        if let Some(queue_family) = queue {
            assert(chosen_queue(offers@[i as int].queue_flags@, Some(queue_family)));
            assert(usable(offers@[i as int]));
            let rank: u8 = device_rank(offers[i].kind);
            let wins: bool = match best {
                None => true,
                Some(current) => rank > current.rank,
            };
            if wins {
                best = Some(DeviceChoice { device: i, queue_family, rank });
            }
        } else {
            assert(!usable(offers@[i as int])) by {
                if usable(offers@[i as int]) {
                    let family = choose|family: u32|
                        chosen_queue(offers@[i as int].queue_flags@, Some(family));
                    assert(graphics_and_compute(
                        offers@[i as int].queue_flags@[family as int],
                    ));
                }
            }
        }
        assert forall|k: int| 0 <= k < after.len() implies #[trigger] after[k] == (if k < i {
            before[k]
        } else {
            offers@[i as int]
        }) by {}
        assert(chosen_device(after, best));
        i += 1;
    }
    assert(offers@.take(i as int) =~= offers@);
    best
}

/// The host can map the memory and sees it without flushing.
pub open spec fn host_memory(flags: u32) -> bool {
    flags & MEMORY_HOST_VISIBLE == MEMORY_HOST_VISIBLE && flags & MEMORY_HOST_COHERENT
        == MEMORY_HOST_COHERENT
}

/// The buffer may live in the memory type.
pub open spec fn allowed_type(type_bits: u32, i: int) -> bool {
    (type_bits >> (i as u32)) & 1 == 1
}

/// The first memory type that a buffer may live in and the host can use.
pub open spec fn chosen_memory_type(type_bits: u32, flags: Seq<u32>, r: Option<u32>) -> bool {
    match r {
        Some(index) => {
            &&& index < flags.len()
            &&& allowed_type(type_bits, index as int) && host_memory(flags[index as int])
            &&& forall|i: int|
                0 <= i < index ==> !(allowed_type(type_bits, i) && host_memory(#[trigger] flags[i]))
        },
        None => forall|i: int|
            0 <= i < flags.len() ==> !(allowed_type(type_bits, i) && host_memory(
                #[trigger] flags[i],
            )),
    }
}

pub fn choose_memory_type(type_bits: u32, flags: &[u32]) -> (r: Option<u32>)
    requires
        flags@.len() <= 32,
    ensures
        chosen_memory_type(type_bits, flags@, r),
{
    let mut i: usize = 0;
    while i < flags.len()
        invariant
            i <= flags@.len() <= 32,
            forall|k: int|
                0 <= k < i ==> !(allowed_type(type_bits, k) && host_memory(#[trigger] flags@[k])),
        decreases flags.len() - i,
    {
        let shift: u32 = i as u32;
        if (type_bits >> shift) & 1 == 1 && flags[i] & MEMORY_HOST_VISIBLE == MEMORY_HOST_VISIBLE
            && flags[i] & MEMORY_HOST_COHERENT == MEMORY_HOST_COHERENT {
            return Some(shift);
        }
        i += 1;
    }
    None
}

/// The size of a buffer that holds so many bytes.
pub open spec fn buffer_size_spec(required: usize) -> int {
    if required < SMALLEST_BUFFER {
        SMALLEST_BUFFER as int
    } else {
        required as int
    }
}

pub fn buffer_size(required: usize) -> (r: u64)
    ensures
        r == buffer_size_spec(required),
{
    if required < SMALLEST_BUFFER {
        SMALLEST_BUFFER as u64
    } else {
        required as u64
    }
}

/// Whether a buffer of some capacity can hold so many bytes.
pub fn capacity_sufficient(capacity: u64, required: usize) -> (r: bool)
    ensures
        r == (capacity >= buffer_size_spec(required)),
{
    capacity >= buffer_size(required)
}

/// The size of the buffer that must take the place of one of some capacity,
/// if it is too small.
pub fn grow_buffer(capacity: u64, required: usize) -> (r: Option<u64>)
    ensures
        match r {
            Some(size) => capacity < size && size == buffer_size_spec(required),
            None => capacity >= buffer_size_spec(required),
        },
{
    if capacity_sufficient(capacity, required) {
        None
    } else {
        Some(buffer_size(required))
    }
}

/// A buffer that was grown to a size is kept for every smaller one.
pub proof fn grown_buffers_are_reused(required: usize, later: usize)
    requires
        later <= required,
    ensures
        buffer_size_spec(required) >= buffer_size_spec(later),
{
}

/// What is dispatched to the device.
pub struct Dispatch {
    pub x_size: usize,
    pub y_size: usize,
    pub output_size: usize,
    /// The sample count, the frequency count, and the bits of the start
    /// frequency, the frequency step and the normalization.
    pub push_constants: [u32; 5],
    pub workgroups: u32,
}

/// The device addresses samples and frequencies with 32 bits.
pub open spec fn addressable(samples: int, frequencies: int) -> bool {
    samples <= u32::MAX && frequencies <= u32::MAX
}

/// Enough workgroups for all frequencies, and not one more.
pub open spec fn enough_workgroups(workgroups: int, frequencies: int) -> bool {
    (workgroups - 1) * WORKGROUP_SIZE < frequencies <= workgroups * WORKGROUP_SIZE
}

/// Prepares a search for the device.
pub fn plan_dispatch(dataset: &Dataset, p: &LombPayload, derived: &Derived) -> (r: Result<
    Dispatch,
    BackendError,
>)
    requires
        validated(*dataset, *p, *derived) matches Ok((x, _)) ==> (addressable(
            x.len() as int,
            p.frequency_count as int,
        ) ==> x.len() * 4 <= usize::MAX && p.frequency_count * 4 <= usize::MAX),
    ensures
        match validated(*dataset, *p, *derived) {
            Err(error) => r == Err::<Dispatch, BackendError>(BackendError::InvalidInput(error)),
            Ok((x, y)) => if !addressable(x.len() as int, p.frequency_count as int) {
                r == Err::<Dispatch, BackendError>(
                    BackendError::InvalidInput(ComputeError::InvalidCount),
                )
            } else {
                &&& r matches Ok(dispatch)
                &&& dispatch.x_size == x.len() * 4
                &&& dispatch.y_size == y.len() * 4
                &&& dispatch.output_size == p.frequency_count * 4
                &&& dispatch.push_constants@ == seq![
                    x.len() as u32,
                    p.frequency_count as u32,
                    p.start_frequency.bits,
                    p.frequency_step.bits,
                    derived.normalization.bits,
                ]
                &&& enough_workgroups(dispatch.workgroups as int, p.frequency_count as int)
            },
        },
{
    let (x, y) = match validate(dataset, p, derived) {
        Ok(series) => series,
        Err(error) => {
            return Err(BackendError::InvalidInput(error));
        },
    };
    if x.len() > 0xffff_ffff || p.frequency_count > 0xffff_ffff {
        return Err(BackendError::InvalidInput(ComputeError::InvalidCount));
    }
    let frequencies: u32 = p.frequency_count as u32;
    let whole: u32 = frequencies / WORKGROUP_SIZE;
    let workgroups: u32 = if frequencies % WORKGROUP_SIZE == 0 { whole } else { whole + 1 };
    let push_constants: [u32; 5] = [
        x.len() as u32,
        frequencies,
        p.start_frequency.bits,
        p.frequency_step.bits,
        derived.normalization.bits,
    ];
    assert(push_constants@ =~= seq![
        x@.len() as u32,
        p.frequency_count as u32,
        p.start_frequency.bits,
        p.frequency_step.bits,
        derived.normalization.bits,
    ]);
    Ok(
        Dispatch {
            x_size: x.len() * 4,
            y_size: y.len() * 4,
            output_size: p.frequency_count * 4,
            push_constants,
            workgroups,
        },
    )
}

/// Where a winner that the device found is looked at again.
#[derive(Clone, Copy, Debug, PartialEq, Eq, Structural)]
pub struct Refinement {
    /// The winner's index within the chunk.
    pub winner: usize,
    pub power: Bits32,
    pub start: usize,
    pub end: usize,
}

/// What the device's work comes to: a failure of the device is a failure of the
/// execution, not of the input.
pub fn device_outcome<T>(work: Result<T, String>) -> (r: Result<T, BackendError>)
    ensures
        match work {
            Ok(value) => r == Ok::<T, BackendError>(value),
            Err(reason) => r == Err::<T, BackendError>(BackendError::Execution(reason)),
        },
{
    match work {
        Ok(value) => Ok(value),
        Err(reason) => Err(BackendError::Execution(reason)),
    }
}

/// The refinement that the powers of the device lead to: the neighbourhood of
/// their winner, by the rule of the CPU kernel.
pub open spec fn refinement_planned(
    p: LombPayload,
    powers: Seq<Bits32>,
    r: Result<Refinement, BackendError>,
) -> bool {
    match chunk_winner(p, powers) {
        Err(error) => r == Err::<Refinement, BackendError>(BackendError::InvalidInput(error)),
        Ok(winner) => {
            &&& r matches Ok(refinement)
            &&& refinement.winner == winner.index < p.frequency_count
            &&& refinement.power == winner.power
            &&& (refinement.start as int, refinement.end as int) == refinement_bounds_spec(
                p.frequency_count as int,
                winner.index as int,
            )
        },
    }
}

/// Finds the winner among the powers that the device computed, by the rule of
/// the CPU kernel, and the neighbourhood to evaluate again.
pub fn plan_refinement(p: &LombPayload, powers: &[Bits32]) -> (r: Result<Refinement, BackendError>)
    ensures
        refinement_planned(*p, powers@, r),
{
    match select_winner(p, powers) {
        Err(error) => Err(BackendError::InvalidInput(error)),
        Ok(winner) => {
            proof {
                assert(powers_of(enumerated(powers@)) =~= powers@);
                strongest_is_unique(powers@);
            }
            match refinement_bounds(p.frequency_count, winner.index) {
                Err(error) => Err(BackendError::InvalidInput(error)),
                Ok((start, end)) => Ok(
                    Refinement { winner: winner.index, power: winner.power, start, end },
                ),
            }
        },
    }
}

/// Whether a neighbourhood was cut off at the start and at the end of its
/// chunk, and whether the refined winner lies on an edge that the radius made.
pub fn refinement_edge_diagnostics(
    frequency_count: usize,
    refinement_start: usize,
    refinement_end: usize,
    refined_winner: usize,
) -> (r: (bool, bool, bool))
    requires
        frequency_count > 0,
    ensures
        r.0 == (refinement_start == 0),
        r.1 == (refinement_end == frequency_count - 1),
        r.2 == (refined_winner == refinement_start && refinement_start > 0 || refined_winner
            == refinement_end && refinement_end < frequency_count - 1),
{
    let final_chunk_index: usize = frequency_count - 1;
    let clamped_at_chunk_start: bool = refinement_start == 0;
    let clamped_at_chunk_end: bool = refinement_end == final_chunk_index;
    let winner_on_radius_edge: bool = (refined_winner == refinement_start && refinement_start > 0)
        || (refined_winner == refinement_end && refinement_end < final_chunk_index);
    (clamped_at_chunk_start, clamped_at_chunk_end, winner_on_radius_edge)
}

/// What is worth logging about a refinement.
#[derive(Clone, Copy, Debug, PartialEq, Eq, Structural)]
pub struct RefinementReport {
    /// The refined winner's index within the chunk.
    pub refined_winner: usize,
    pub distance_bins: usize,
    pub clamped_at_chunk_start: bool,
    pub clamped_at_chunk_end: bool,
    pub winner_on_radius_edge: bool,
}

/// What a refinement comes to: its result stands, and the report describes it.
pub open spec fn refinement_finished(
    p: LombPayload,
    refinement: Refinement,
    refined: Result<LombResult, ComputeError>,
    r: Result<(LombResult, RefinementReport), BackendError>,
) -> bool {
    match refined {
        Err(error) => r == Err::<(LombResult, RefinementReport), BackendError>(
            BackendError::InvalidInput(error),
        ),
        Ok(result) => if result.best_frequency_index < p.frequency_start_index {
            r == Err::<(LombResult, RefinementReport), BackendError>(
                BackendError::InvalidInput(ComputeError::InvalidResult),
            )
        } else {
            &&& r matches Ok((kept, report))
            &&& kept == result
            &&& report.refined_winner == result.best_frequency_index - p.frequency_start_index
            &&& report.distance_bins == if report.refined_winner >= refinement.winner {
                report.refined_winner - refinement.winner
            } else {
                refinement.winner - report.refined_winner
            }
            &&& report.clamped_at_chunk_start == (refinement.start == 0)
            &&& report.clamped_at_chunk_end == (refinement.end == p.frequency_count - 1)
            &&& report.winner_on_radius_edge == (report.refined_winner == refinement.start
                && refinement.start > 0 || report.refined_winner == refinement.end && refinement.end
                < p.frequency_count - 1)
        },
    }
}

/// Closes a refinement. Its result stands; the report only describes it.
pub fn finish_refinement(
    p: &LombPayload,
    refinement: &Refinement,
    refined: Result<LombResult, ComputeError>,
) -> (r: Result<(LombResult, RefinementReport), BackendError>)
    requires
        p.frequency_count > 0,
    ensures
        refinement_finished(*p, *refinement, refined, r),
{
    let result = match refined {
        Ok(result) => result,
        Err(error) => {
            return Err(BackendError::InvalidInput(error));
        },
    };
    let refined_winner: usize = match result.best_frequency_index.checked_sub(
        p.frequency_start_index,
    ) {
        Some(index) => index,
        None => {
            return Err(BackendError::InvalidInput(ComputeError::InvalidResult));
        },
    };
    let (clamped_at_chunk_start, clamped_at_chunk_end, winner_on_radius_edge) =
        refinement_edge_diagnostics(
        p.frequency_count,
        refinement.start,
        refinement.end,
        refined_winner,
    );
    let distance_bins: usize = if refined_winner >= refinement.winner {
        refined_winner - refinement.winner
    } else {
        refinement.winner - refined_winner
    };
    Ok(
        (
            result,
            RefinementReport {
                refined_winner,
                distance_bins,
                clamped_at_chunk_start,
                clamped_at_chunk_end,
                winner_on_radius_edge,
            },
        ),
    )
}

/// A search on the device ends with what the CPU finds around the device's
/// winner, which is the lowest index of the greatest power that the device
/// computed: neither the powers of the device nor the report change that result.
pub proof fn a_device_search_ends_with_the_refined_winner(
    dataset: Dataset,
    p: LombPayload,
    derived: Derived,
    powers: Seq<Bits32>,
    points: Seq<GridPoint>,
    planned: Result<Refinement, BackendError>,
    r: Result<(LombResult, RefinementReport), BackendError>,
)
    requires
        refinement_planned(p, powers, planned),
        planned matches Ok(refinement) ==> points.len() == refinement.end - refinement.start + 1
            && refinement_finished(
            p,
            refinement,
            refined(dataset, p, derived, refinement.winner as int, points),
            r,
        ),
    ensures
        match planned {
            Err(error) => chunk_winner(p, powers) matches Err(cause) && error
                == BackendError::InvalidInput(cause),
            Ok(refinement) => strongest(powers, refinement.winner as int) && match refined(
                dataset,
                p,
                derived,
                refinement.winner as int,
                points,
            ) {
                Err(cause) => r == Err::<(LombResult, RefinementReport), BackendError>(
                    BackendError::InvalidInput(cause),
                ),
                Ok(result) => r matches Ok((kept, report)) && kept == result && refinement.start
                    <= report.refined_winner <= refinement.end,
            },
        },
{
    if let Ok(refinement) = planned {
        assert(powers_of(enumerated(powers)) =~= powers);
        strongest_is_unique(powers);
        refinement_is_a_bounded_neighbourhood(
            p.frequency_count as int,
            refinement.winner as int,
        );
        if let Ok(result) = refined(dataset, p, derived, refinement.winner as int, points) {
            let start = refinement.start as int;
            indexed_powers_len(points, start);
            let indexed = indexed_powers(points, start)->Ok_0;
            strongest_is_unique(powers_of(indexed));
        }
    }
}

/// Where the device's winner lies within the radius of the true one, a search on
/// the device and a search on the CPU have the same result.
pub proof fn a_device_search_equals_a_search_on_the_cpu(
    dataset: Dataset,
    p: LombPayload,
    derived: Derived,
    powers: Seq<Bits32>,
    grid: Seq<GridPoint>,
    refinement: Refinement,
    r: Result<(LombResult, RefinementReport), BackendError>,
)
    requires
        executed(dataset, p, derived, grid) is Ok,
        refinement_planned(p, powers, Ok(refinement)),
        refinement.start <= strongest_index(searched_powers(grid)->Ok_0) <= refinement.end,
        refinement_finished(
            p,
            refinement,
            refined(
                dataset,
                p,
                derived,
                refinement.winner as int,
                grid.subrange(refinement.start as int, refinement.end + 1),
            ),
            r,
        ),
    ensures
        r matches Ok((kept, _)) && Ok::<LombResult, ComputeError>(kept) == executed(
            dataset,
            p,
            derived,
            grid,
        ),
{
    assert(chunk_winner(p, powers) is Ok);
    let near = grid.subrange(refinement.start as int, refinement.end + 1);
    refinement_recovers_the_winner(dataset, p, derived, grid, refinement.winner as int);
    refinement_is_a_bounded_neighbourhood(p.frequency_count as int, refinement.winner as int);
    searched_powers_len(grid);
    a_device_search_ends_with_the_refined_winner(
        dataset,
        p,
        derived,
        powers,
        near,
        Ok(refinement),
        r,
    );
}

/// A discrete GPU is preferred to an integrated one, and that to anything else.
pub proof fn discrete_gpus_come_first(kind: i32)
    ensures
        device_rank_spec(2) > device_rank_spec(1),
        device_rank_spec(1) > device_rank_spec(0),
        kind != 1 && kind != 2 ==> device_rank_spec(kind) == device_rank_spec(0),
        device_rank_spec(kind) <= device_rank_spec(2),
{
}

/// A queue family is chosen only where it takes graphics and compute work both;
/// no family before it does. Where any does, one is chosen.
pub proof fn a_chosen_queue_takes_both_kinds_of_work(flags: Seq<u32>, r: Option<u32>, i: int)
    requires
        flags.len() <= u32::MAX,
        chosen_queue(flags, r),
        0 <= i < flags.len(),
    ensures
        r matches Some(family) ==> family < flags.len() && flags[family as int] & 1 == 1
            && flags[family as int] & 2 == 2,
        flags[i] & 1 == 1 && flags[i] & 2 == 2 ==> r is Some && r->Some_0 <= i,
{
}

/// The device that is chosen has a queue family that takes both kinds of work,
/// no usable device is of a better kind, and it is the first of its kind. Where a
/// device is usable, one is chosen.
pub proof fn the_first_of_the_best_devices_is_chosen(
    offers: Seq<DeviceOffer>,
    r: Option<DeviceChoice>,
    i: int,
    family: u32,
)
    requires
        chosen_device(offers, r),
        0 <= i < offers.len(),
        chosen_queue(offers[i].queue_flags@, Some(family)),
    ensures
        r is Some,
        r->Some_0.device < offers.len(),
        chosen_queue(
            offers[r->Some_0.device as int].queue_flags@,
            Some(r->Some_0.queue_family),
        ),
        offers[i].kind == 2 ==> offers[r->Some_0.device as int].kind == 2,
        offers[i].kind == 1 ==> offers[r->Some_0.device as int].kind == 2
            || offers[r->Some_0.device as int].kind == 1,
        offers[i].kind == offers[r->Some_0.device as int].kind ==> r->Some_0.device <= i,
        r->Some_0.rank == device_rank_spec(offers[r->Some_0.device as int].kind),
{
    assert(usable(offers[i]));
}

/// A buffer holds what is required and at least four bytes, and is no larger.
pub proof fn buffers_are_as_large_as_required(required: usize)
    ensures
        buffer_size_spec(required) >= required,
        buffer_size_spec(required) >= 4,
        buffer_size_spec(required) == required || buffer_size_spec(required) == 4,
{
}

/// Every frequency is evaluated by some workgroup of 64, and no workgroup is
/// without a frequency.
pub proof fn every_frequency_has_a_workgroup(workgroups: int, frequencies: int, index: int)
    requires
        enough_workgroups(workgroups, frequencies),
        0 <= index < frequencies,
    ensures
        index < 64 * workgroups,
        64 * (workgroups - 1) < frequencies,
{
}

/// Memory that is host memory can be mapped and needs no flushing: both flags are
/// set.
pub proof fn host_memory_has_both_flags(flags: u32)
    ensures
        host_memory(flags) <==> flags & 2 == 2 && flags & 4 == 4,
{
}

} // verus!
