use ash::vk;
use openstar_linux_worker::backend::BackendError;
use openstar_linux_worker::float_bits::Bits32;
use openstar_linux_worker::kernel::{execute, refine_winner, ComputeError, Derived, GridPoint};
use openstar_linux_worker::protocol::{Dataset, LombPayload, LombResult};
use openstar_linux_worker::vulkan::{
    buffer_size, capacity_sufficient, choose_device, choose_memory_type, choose_queue,
    device_outcome, device_rank, finish_refinement, grow_buffer, plan_dispatch, plan_refinement,
    refinement_edge_diagnostics, DeviceChoice, DeviceOffer, Refinement, DISCRETE_GPU,
    INTEGRATED_GPU, MEMORY_HOST_COHERENT, MEMORY_HOST_VISIBLE, QUEUE_COMPUTE, QUEUE_GRAPHICS,
};

fn bits(value: f32) -> Bits32 {
    Bits32 { bits: value.to_bits() }
}

fn raw(flags: &[vk::QueueFlags]) -> Vec<u32> {
    flags.iter().map(|flags| flags.as_raw()).collect()
}

#[test]
fn graphics_compute_is_required_even_with_compute_only_first() {
    let flags = [
        vk::QueueFlags::COMPUTE,
        vk::QueueFlags::GRAPHICS | vk::QueueFlags::COMPUTE,
    ];
    assert_eq!(choose_queue(&raw(&flags)), Some(1));
}

#[test]
fn compute_only_is_rejected() {
    assert_eq!(choose_queue(&raw(&[vk::QueueFlags::COMPUTE])), None);
}

#[test]
fn buffer_capacity_is_reused_until_growth_is_required() {
    assert!(capacity_sufficient(1024, 512));
    assert!(capacity_sufficient(1024, 1024));
    assert!(!capacity_sufficient(1024, 1025));
    assert!(capacity_sufficient(4, 0));
}

#[test]
fn refinement_diagnostics_distinguish_chunk_boundaries_from_radius_edges() {
    assert_eq!(refinement_edge_diagnostics(4096, 0, 128, 0), (true, false, false));
    assert_eq!(refinement_edge_diagnostics(4096, 3967, 4095, 4095), (false, true, false));
    assert_eq!(refinement_edge_diagnostics(4096, 1872, 2128, 1872), (false, false, true));
    assert_eq!(refinement_edge_diagnostics(4096, 1872, 2128, 2128), (false, false, true));
    assert_eq!(refinement_edge_diagnostics(4096, 1872, 2128, 2000), (false, false, false));
}

#[test]
fn flags_and_device_types_are_those_of_vulkan() {
    assert_eq!(QUEUE_GRAPHICS, vk::QueueFlags::GRAPHICS.as_raw());
    assert_eq!(QUEUE_COMPUTE, vk::QueueFlags::COMPUTE.as_raw());
    assert_eq!(MEMORY_HOST_VISIBLE, vk::MemoryPropertyFlags::HOST_VISIBLE.as_raw());
    assert_eq!(MEMORY_HOST_COHERENT, vk::MemoryPropertyFlags::HOST_COHERENT.as_raw());
    assert_eq!(DISCRETE_GPU, vk::PhysicalDeviceType::DISCRETE_GPU.as_raw());
    assert_eq!(INTEGRATED_GPU, vk::PhysicalDeviceType::INTEGRATED_GPU.as_raw());
}

#[test]
fn the_best_ranked_usable_device_is_chosen() {
    let both = QUEUE_GRAPHICS | QUEUE_COMPUTE;
    let offer = |kind: i32, queue_flags: Vec<u32>| DeviceOffer { kind, queue_flags };
    assert_eq!(device_rank(vk::PhysicalDeviceType::CPU.as_raw()), 0);
    let offers = [
        offer(vk::PhysicalDeviceType::CPU.as_raw(), vec![both]),
        offer(INTEGRATED_GPU, vec![QUEUE_COMPUTE, both]),
        offer(DISCRETE_GPU, vec![QUEUE_COMPUTE]),
        offer(INTEGRATED_GPU, vec![both]),
    ];
    assert_eq!(
        choose_device(&offers),
        Some(DeviceChoice { device: 1, queue_family: 1, rank: 1 })
    );
    assert_eq!(choose_device(&offers[2..3]), None);
}

#[test]
fn the_first_allowed_host_memory_is_chosen() {
    let host = MEMORY_HOST_VISIBLE | MEMORY_HOST_COHERENT;
    assert_eq!(choose_memory_type(0b111, &[0, MEMORY_HOST_VISIBLE, host]), Some(2));
    assert_eq!(choose_memory_type(0b110, &[host, host, host]), Some(1));
    assert_eq!(choose_memory_type(0b011, &[0, 0, host]), None);
}

#[test]
fn buffers_grow_to_what_is_required() {
    assert_eq!(buffer_size(0), 4);
    assert_eq!(buffer_size(4096), 4096);
    assert_eq!(grow_buffer(1024, 1025), Some(1025));
    assert_eq!(grow_buffer(1025, 1024), None);
    assert_eq!(grow_buffer(0, 0), Some(4));
}

fn dataset() -> Dataset {
    Dataset {
        coordinates: Some(vec![bits(0.0), bits(0.5)]),
        values: Some(vec![bits(1.0), bits(2.0)]),
        times: None,
        flux: None,
    }
}

fn payload(count: usize) -> LombPayload {
    LombPayload {
        start_frequency: bits(0.5),
        frequency_step: bits(0.25),
        frequency_count: count,
        frequency_start_index: 1000,
    }
}

#[test]
fn a_dispatch_covers_every_frequency() {
    let derived = Derived { normalization: bits(5.0), last_frequency: bits(16.5) };
    let dispatch = plan_dispatch(&dataset(), &payload(65), &derived).unwrap_or_else(|_| panic!());
    assert_eq!(dispatch.x_size, 8);
    assert_eq!(dispatch.y_size, 8);
    assert_eq!(dispatch.output_size, 260);
    assert_eq!(dispatch.workgroups, 2);
    assert_eq!(
        dispatch.push_constants,
        [2, 65, 0.5_f32.to_bits(), 0.25_f32.to_bits(), 5.0_f32.to_bits()]
    );
    let whole = plan_dispatch(&dataset(), &payload(64), &derived).unwrap_or_else(|_| panic!());
    assert_eq!(whole.workgroups, 1);
    assert!(matches!(
        plan_dispatch(&dataset(), &payload(0x1_0000_0000), &derived),
        Err(BackendError::InvalidInput(ComputeError::InvalidCount))
    ));
    let flat = Derived { normalization: bits(0.0), ..derived };
    assert!(matches!(
        plan_dispatch(&dataset(), &payload(1), &flat),
        Err(BackendError::InvalidInput(ComputeError::InvalidNormalization))
    ));
}

#[test]
fn a_refinement_is_planned_around_the_winner_and_reported() {
    let p = payload(500);
    let mut powers = vec![bits(0.1); 500];
    powers[200] = bits(0.9);
    let refinement = plan_refinement(&p, &powers).unwrap_or_else(|_| panic!());
    assert_eq!(
        refinement,
        Refinement { winner: 200, power: bits(0.9), start: 72, end: 328 }
    );
    powers[3] = bits(f32::NAN);
    assert!(matches!(
        plan_refinement(&p, &powers),
        Err(BackendError::InvalidInput(ComputeError::InvalidResult))
    ));

    let refined = LombResult {
        best_frequency: bits(18.5),
        best_period_days: bits(1.0 / 18.5),
        best_power: bits(0.95),
        best_frequency_index: 1072,
    };
    let (kept, report) =
        finish_refinement(&p, &refinement, Ok(refined)).unwrap_or_else(|_| panic!());
    assert_eq!(kept, refined);
    assert_eq!(report.refined_winner, 72);
    assert_eq!(report.distance_bins, 128);
    assert!(report.winner_on_radius_edge);
    assert!(!report.clamped_at_chunk_start && !report.clamped_at_chunk_end);

    let stray = LombResult { best_frequency_index: 999, ..refined };
    assert!(matches!(
        finish_refinement(&p, &refinement, Ok(stray)),
        Err(BackendError::InvalidInput(ComputeError::InvalidResult))
    ));
    assert!(matches!(
        finish_refinement(&p, &refinement, Err(ComputeError::InvalidFrequency)),
        Err(BackendError::InvalidInput(ComputeError::InvalidFrequency))
    ));
}

#[test]
fn device_failures_are_failures_of_the_execution() {
    assert!(matches!(
        device_outcome::<u8>(Err("device lost".to_owned())),
        Err(BackendError::Execution(reason)) if reason == "device lost"
    ));
    assert!(matches!(device_outcome(Ok(vec![bits(0.5)])), Ok(powers) if powers == [bits(0.5)]));
}

#[test]
fn a_device_search_has_the_result_of_a_cpu_search() {
    let p = payload(300);
    let derived = Derived { normalization: bits(5.0), last_frequency: bits(75.25) };
    let grid: Vec<GridPoint> = (0..300)
        .map(|index| {
            let frequency = 0.5 + index as f32 * 0.25;
            GridPoint {
                frequency: bits(frequency),
                period_days: bits(1.0 / frequency),
                sum_cos_squared: bits(1.0),
                sum_sin_squared: bits(1.0),
                power: bits(if index == 150 || index == 151 { 0.9 } else { 0.1 }),
            }
        })
        .collect();
    let cpu = execute(&dataset(), &p, &derived, &grid).unwrap();
    // The device is off by some bins, and its own powers do not matter.
    let mut powers = vec![bits(0.2); 300];
    powers[170] = bits(0.3);
    let refinement = plan_refinement(&p, &powers).unwrap_or_else(|_| panic!());
    let near = &grid[refinement.start..=refinement.end];
    let refined = refine_winner(&dataset(), &p, &derived, refinement.winner, near);
    let (kept, report) = finish_refinement(&p, &refinement, refined).unwrap_or_else(|_| panic!());
    assert_eq!(kept, cpu);
    assert_eq!(kept.best_frequency_index, 1150);
    assert_eq!(report.distance_bins, 20);
}
