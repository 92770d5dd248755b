use openstar_linux_worker::float_bits::Bits32;
use openstar_linux_worker::kernel::{
    check_derived, check_inputs, execute, power, refine_winner, refinement_bounds,
    refinement_range, select_indexed_winner, select_winner, validate, ComputeError, Derived,
    GridPoint,
};
use openstar_linux_worker::protocol::{Dataset, LombPayload, LombResult};
use rayon::iter::{IntoParallelIterator, ParallelIterator};

fn bits(value: f32) -> Bits32 {
    Bits32 { bits: value.to_bits() }
}

fn number(bits: Bits32) -> f32 {
    f32::from_bits(bits.bits)
}

fn all_bits(values: &[f32]) -> Vec<Bits32> {
    values.iter().map(|value| bits(*value)).collect()
}

fn indexed(values: &[(usize, f32)]) -> Vec<(usize, Bits32)> {
    values.iter().map(|(index, value)| (*index, bits(*value))).collect()
}

fn series(coordinates: &[f32], values: &[f32]) -> Dataset {
    Dataset {
        coordinates: Some(all_bits(coordinates)),
        values: Some(all_bits(values)),
        times: None,
        flux: None,
    }
}

fn dataset() -> Dataset {
    series(&[0.0, 0.37, 1.11, 1.8, 2.73], &[2.0, 3.2, 1.4, 2.8, 1.9])
}

fn payload(start: f32, step: f32, count: usize, start_index: usize) -> LombPayload {
    LombPayload {
        start_frequency: bits(start),
        frequency_step: bits(step),
        frequency_count: count,
        frequency_start_index: start_index,
    }
}

fn derived(d: &Dataset, p: &LombPayload) -> Derived {
    let (_, values) = d.series().unwrap();
    let normalization = values.iter().fold(0.0_f32, |sum, v| sum + number(*v) * number(*v));
    let last = number(p.start_frequency)
        + p.frequency_count.saturating_sub(1) as f32 * number(p.frequency_step);
    Derived { normalization: bits(normalization), last_frequency: bits(last) }
}

fn point(d: &Dataset, p: &LombPayload, index: usize) -> GridPoint {
    let (x, y) = d.series().unwrap();
    let x: Vec<f32> = x.iter().map(|v| number(*v)).collect();
    let y: Vec<f32> = y.iter().map(|v| number(*v)).collect();
    let normalization = number(derived(d, p).normalization);
    let frequency = number(p.start_frequency) + index as f32 * number(p.frequency_step);
    let omega = 2.0_f32 * std::f32::consts::PI * frequency;
    let (mut sum_sin_2wt, mut sum_cos_2wt) = (0.0_f32, 0.0_f32);
    for coordinate in &x {
        sum_sin_2wt += (2.0 * omega * coordinate).sin();
        sum_cos_2wt += (2.0 * omega * coordinate).cos();
    }
    let tau = sum_sin_2wt.atan2(sum_cos_2wt) / (2.0 * omega);
    let (mut y_cos, mut y_sin, mut cos_squared, mut sin_squared) =
        (0.0_f32, 0.0_f32, 0.0_f32, 0.0_f32);
    for (coordinate, value) in x.iter().zip(&y) {
        let shifted = omega * (coordinate - tau);
        y_cos += value * shifted.cos();
        y_sin += value * shifted.sin();
        cos_squared += shifted.cos() * shifted.cos();
        sin_squared += shifted.sin() * shifted.sin();
    }
    let power = ((y_cos * y_cos / cos_squared) + (y_sin * y_sin / sin_squared)) / normalization;
    GridPoint {
        frequency: bits(frequency),
        period_days: bits(1.0 / frequency),
        sum_cos_squared: bits(cos_squared),
        sum_sin_squared: bits(sin_squared),
        power: bits(power),
    }
}

fn search(d: &Dataset, p: &LombPayload) -> Result<LombResult, ComputeError> {
    check_inputs(d, p)?;
    let values = derived(d, p);
    let points: Vec<GridPoint> = (0..p.frequency_count).map(|i| point(d, p, i)).collect();
    execute(d, p, &values, &points)
}

fn refine(d: &Dataset, p: &LombPayload, winner: usize) -> Result<LombResult, ComputeError> {
    let values = derived(d, p);
    let points: Vec<GridPoint> =
        refinement_range(p.frequency_count, winner)?.map(|i| point(d, p, i)).collect();
    refine_winner(d, p, &values, winner, &points)
}

#[test]
fn apple_scalar_golden_nonzero_mean_irregular_coordinates() {
    let result = search(&dataset(), &payload(0.2, 0.15, 5, 40)).unwrap();
    assert_eq!(result.best_frequency_index, 44);
    assert!((number(result.best_frequency) - 0.8).abs() < 1e-7);
    assert!((number(result.best_power) - 0.43365732).abs() < 1e-6);
    assert!((number(result.best_period_days) - 1.25).abs() < 1e-6);
}

#[test]
fn regression_does_not_mean_center_or_half_power() {
    let d = series(&[0.0, 0.25, 0.5, 0.75], &[2.0, 3.0, 2.0, 1.0]);
    let result = search(&d, &payload(1.0, 1.0, 1, 5)).unwrap();
    assert!((number(result.best_power) - 0.11111111).abs() < 1e-6);
    assert_eq!(result.best_frequency_index, 5);
}

#[test]
fn rejects_invalid_inputs() {
    let mut d = dataset();
    d.values.as_mut().unwrap()[0] = bits(f32::NAN);
    assert_eq!(search(&d, &payload(1.0, 1.0, 1, 0)), Err(ComputeError::NonFinite));
}

#[test]
fn legacy_dataset_and_frequency_chunk_boundary() {
    let d = Dataset {
        coordinates: None,
        values: None,
        times: Some(all_bits(&[0.0, 0.25, 0.5, 0.75])),
        flux: Some(all_bits(&[2.0, 3.0, 2.0, 1.0])),
    };
    let result = search(&d, &payload(1.0, 0.25, 1, 4_096)).unwrap();
    assert_eq!(result.best_frequency_index, 4_096);
}

#[test]
fn rejects_mismatched_and_nonpositive_frequency_inputs() {
    let mismatch = series(&[0.0], &[1.0, 2.0]);
    assert_eq!(search(&mismatch, &payload(1.0, 1.0, 1, 0)), Err(ComputeError::InvalidSeries));
    assert_eq!(
        search(&dataset(), &payload(0.0, 1.0, 1, 0)),
        Err(ComputeError::InvalidFrequency)
    );
    for frequency_step in [0.0, -0.1] {
        assert_eq!(
            search(&dataset(), &payload(1.0, frequency_step, 2, 0)),
            Err(ComputeError::InvalidFrequency)
        );
    }
}

#[test]
fn winner_selection_is_deterministic_and_lowest_index_wins_ties() {
    let p = payload(0.5, 0.25, 4, 100);
    let result = select_winner(&p, &all_bits(&[0.1, 0.9, 0.9, 0.2])).unwrap();
    assert_eq!(result.frequency_index, 101);
    let frequency = number(p.start_frequency) + result.index as f32 * number(p.frequency_step);
    assert_eq!(frequency, 0.75);
    assert_eq!(number(result.power), 0.9);
}

#[test]
fn cpu_refinement_recovers_a_winner_displaced_by_gpu_math() {
    let p = payload(0.1, 0.025, 64, 700);
    let cpu = search(&dataset(), &p).unwrap();
    let cpu_index = cpu.best_frequency_index - p.frequency_start_index;
    let displaced = if cpu_index + 5 < p.frequency_count { cpu_index + 5 } else { cpu_index - 5 };
    let mut simulated_gpu_powers = vec![0.0; p.frequency_count];
    simulated_gpu_powers[displaced] = 1.0;
    let gpu = select_winner(&p, &all_bits(&simulated_gpu_powers)).unwrap();
    let gpu_index = gpu.frequency_index - p.frequency_start_index;

    let refined = refine(&dataset(), &p, gpu_index).unwrap();

    assert_eq!(refined, cpu);
    assert_ne!(gpu.frequency_index, cpu.best_frequency_index);
}

#[test]
fn refinement_window_clamps_at_both_chunk_boundaries() {
    assert_eq!(
        refinement_range(4096, 0).unwrap().collect::<Vec<_>>(),
        (0..=128).collect::<Vec<_>>()
    );
    assert_eq!(
        refinement_range(4096, 4095).unwrap().collect::<Vec<_>>(),
        (3967..=4095).collect::<Vec<_>>()
    );
}

#[test]
fn interior_refinement_uses_at_most_two_hundred_fifty_seven_bins() {
    let range = refinement_range(4096, 2048).unwrap();
    assert_eq!(range.count(), 257);
}

#[test]
fn cpu_refinement_recovers_a_winner_more_than_sixteen_bins_away() {
    let p = payload(0.1, 0.005, 300, 20_000);
    let cpu = search(&dataset(), &p).unwrap();
    let cpu_index = cpu.best_frequency_index - p.frequency_start_index;
    let simulated_gpu_index =
        if cpu_index + 32 < p.frequency_count { cpu_index + 32 } else { cpu_index - 32 };

    let refined = refine(&dataset(), &p, simulated_gpu_index).unwrap();

    assert_eq!(simulated_gpu_index.abs_diff(cpu_index), 32);
    assert_eq!(refined, cpu);
}

#[test]
fn refined_ties_choose_lowest_index_and_apply_global_start_index() {
    let p = payload(0.5, 0.25, 50, 10_000);
    let result = select_indexed_winner(&p, &indexed(&[(20, 0.7), (21, 0.7)])).unwrap();
    assert_eq!(result.frequency_index, 10_020);
    let frequency = number(p.start_frequency) + result.index as f32 * number(p.frequency_step);
    assert_eq!(frequency, 5.5);
    assert_eq!(number(result.power), 0.7);
}

#[test]
fn parallel_refinement_repeatedly_matches_full_cpu_exactly() {
    let p = payload(0.1, 0.005, 300, 20_000);
    let expected = search(&dataset(), &p).unwrap();
    let winner = expected.best_frequency_index - p.frequency_start_index;
    for _ in 0..32 {
        let d = dataset();
        let points: Vec<GridPoint> = refinement_range(p.frequency_count, winner)
            .unwrap()
            .into_par_iter()
            .map(|index| point(&d, &p, index))
            .collect();
        assert_eq!(refine_winner(&d, &p, &derived(&d, &p), winner, &points).unwrap(), expected);
    }
}

#[test]
fn parallel_collection_preserves_order_and_deterministic_ties() {
    let p = payload(0.5, 0.25, 257, 10_000);
    for _ in 0..32 {
        let powers = (0..=256)
            .into_par_iter()
            .map(|index: usize| (index, if index == 100 || index == 200 { 0.9 } else { 0.1 }))
            .collect::<Vec<_>>();
        assert!(powers.windows(2).all(|pair| pair[0].0.checked_add(1) == Some(pair[1].0)));
        let result = select_indexed_winner(&p, &indexed(&powers)).unwrap();
        assert_eq!(result.frequency_index, 10_100);
        assert_eq!(number(result.power), 0.9);
    }
}

#[test]
fn every_compute_error_has_an_input() {
    let d = dataset();
    let p = payload(0.2, 0.15, 2, 0);
    let good = derived(&d, &p);
    let empty = Dataset { coordinates: None, values: None, times: None, flux: None };
    assert!(matches!(check_inputs(&empty, &p), Err(ComputeError::InvalidSeries)));
    let none = payload(0.2, 0.15, 0, 0);
    assert!(matches!(check_inputs(&d, &none), Err(ComputeError::InvalidCount)));
    let flat = Derived { normalization: bits(0.0), ..good };
    assert_eq!(check_derived(&flat), Err(ComputeError::InvalidNormalization));
    let endless = Derived { last_frequency: bits(f32::INFINITY), ..good };
    assert!(matches!(validate(&d, &p, &endless), Err(ComputeError::InvalidFrequency)));
    assert!(matches!(
        select_winner(&p, &all_bits(&[0.1, f32::NAN])),
        Err(ComputeError::InvalidResult)
    ));
    assert!(matches!(select_winner(&p, &all_bits(&[0.1])), Err(ComputeError::InvalidCount)));
    let far = payload(0.2, 0.15, 2, usize::MAX);
    assert!(matches!(
        select_winner(&far, &all_bits(&[0.1, 0.2])),
        Err(ComputeError::InvalidResult)
    ));
    assert_eq!(refinement_bounds(10, 10), Err(ComputeError::InvalidCount));
    let degenerate = GridPoint { sum_cos_squared: bits(0.0), ..point(&d, &p, 0) };
    assert_eq!(power(&degenerate), Err(ComputeError::InvalidResult));
}

#[test]
fn compute_errors_speak_plainly() {
    assert_eq!(
        ComputeError::InvalidSeries.message(),
        "dataset must contain matching, nonempty coordinate and value arrays"
    );
    assert_eq!(ComputeError::NonFinite.message(), "input contains a non-finite number");
    assert_eq!(ComputeError::InvalidCount.message(), "frequency count must be positive");
    assert_eq!(
        ComputeError::InvalidFrequency.message(),
        "all frequencies must be finite and positive"
    );
    assert_eq!(
        ComputeError::InvalidNormalization.message(),
        "value-squared normalization must be finite and positive"
    );
    assert_eq!(
        ComputeError::InvalidResult.message(),
        "Lomb-Scargle denominator or result is invalid"
    );
}

#[test]
fn an_error_at_a_lower_index_comes_first() {
    let d = dataset();
    let p = payload(0.2, 0.15, 3, 0);
    let mut points: Vec<GridPoint> = (0..3).map(|i| point(&d, &p, i)).collect();
    points[1].frequency = bits(f32::NAN);
    points[2].power = bits(f32::INFINITY);
    assert_eq!(execute(&d, &p, &derived(&d, &p), &points), Err(ComputeError::InvalidFrequency));
}

#[test]
fn bit_patterns_classify_and_order_like_the_numbers() {
    let samples = [
        f32::NEG_INFINITY,
        -2.5,
        -1.0,
        -f32::MIN_POSITIVE,
        -0.0,
        0.0,
        1.0e-45,
        0.5,
        0.99999994,
        1.0,
        f32::MAX,
        f32::INFINITY,
        f32::NAN,
    ];
    for a in samples {
        assert_eq!(bits(a).is_finite(), a.is_finite());
        assert_eq!(bits(a).is_finite_positive(), a.is_finite() && a > 0.0);
        assert_eq!(bits(a).is_proper_fraction(), a > 0.0 && a < 1.0);
        for b in samples {
            assert_eq!(bits(a).exceeds(bits(b)), a.total_cmp(&b).is_gt());
        }
    }
}
