use openstar_linux_worker::box_period_search::{
    best_candidate, bin_counts, box_windows, check_grid, check_shape, execute, sample_bins,
    score_frequency,
    select_better, validate, BoxPeriodError, BoxTables, Candidate,
};
use openstar_linux_worker::float_bits::Bits32;
use openstar_linux_worker::protocol::{BoxPeriodPayload, BoxPeriodResult, Dataset};

fn bits(value: f32) -> Bits32 {
    Bits32 { bits: value.to_bits() }
}

fn number(bits: Bits32) -> f32 {
    f32::from_bits(bits.bits)
}

fn all_bits(values: &[f32]) -> Vec<Bits32> {
    values.iter().map(|value| bits(*value)).collect()
}

fn fixture() -> (Dataset, BoxPeriodPayload) {
    let coordinates = (0..80).map(|index| index as f32 * 0.25).collect::<Vec<_>>();
    let values = coordinates
        .iter()
        .map(|time| {
            let phase = (*time * 0.5) - (*time * 0.5).floor();
            if phase < 0.15 {
                -2.0
            } else {
                0.25
            }
        })
        .collect::<Vec<f32>>();
    (
        Dataset {
            coordinates: Some(all_bits(&coordinates)),
            values: Some(all_bits(&values)),
            times: None,
            flux: None,
        },
        BoxPeriodPayload {
            start_frequency: bits(0.4),
            frequency_step: bits(0.05),
            frequency_count: 5,
            frequency_start_index: 20,
            phase_bin_count: 20,
            duration_fractions: all_bits(&[0.1, 0.15]),
            minimum_in_box_samples: 4,
            minimum_out_of_box_samples: 20,
        },
    )
}

fn frequency(p: &BoxPeriodPayload, index: usize) -> f32 {
    number(p.start_frequency) + index as f32 * number(p.frequency_step)
}

fn last_frequency(p: &BoxPeriodPayload) -> Bits32 {
    bits(frequency(p, p.frequency_count.saturating_sub(1)))
}

fn score(x: &[f32], y: &[f32], p: &BoxPeriodPayload, index: usize) -> Option<Candidate> {
    let bins = p.phase_bin_count;
    let raw_bins: Vec<usize> = x
        .iter()
        .map(|coordinate| {
            let cycles = coordinate * frequency(p, index);
            ((cycles - cycles.floor()) * bins as f32) as usize
        })
        .collect();
    let raw_widths: Vec<usize> = p
        .duration_fractions
        .iter()
        .map(|duration| (number(*duration) * bins as f32 + 0.5).floor() as usize)
        .collect();
    let windows = box_windows(p, &raw_bins, &raw_widths);
    let mut sums = vec![0.0_f32; bins];
    let mut total_sum = 0.0_f32;
    for (bin, value) in sample_bins(&raw_bins, bins).into_iter().zip(y) {
        sums[bin] += value;
        total_sum += value;
    }
    let mut scores: Vec<Vec<Bits32>> = Vec::new();
    for row in &windows {
        let mut inside_sum: f32 = sums[..row[0].duration_bins].iter().sum();
        let mut scored = Vec::new();
        for window in row {
            let (inside, outside) =
                (window.in_box_samples as f32, window.out_of_box_samples as f32);
            let contrast = (total_sum - inside_sum) / outside - inside_sum / inside;
            scored.push(bits(contrast * ((inside * outside) / x.len() as f32).sqrt()));
            inside_sum += sums[window.entering] - sums[window.phase_bin];
        }
        scores.push(scored);
    }
    score_frequency(index, &windows, &scores)
}

fn search(d: &Dataset, p: &BoxPeriodPayload) -> Result<BoxPeriodResult, BoxPeriodError> {
    check_grid(d, p)?;
    let (x, y) = validate(d, p, last_frequency(p))?;
    let x: Vec<f32> = x.iter().map(|v| number(*v)).collect();
    let y: Vec<f32> = y.iter().map(|v| number(*v)).collect();
    let candidates: Vec<Option<Candidate>> =
        (0..p.frequency_count).map(|index| score(&x, &y, p, index)).collect();
    let tables = BoxTables {
        frequencies: (0..p.frequency_count).map(|index| bits(frequency(p, index))).collect(),
        bin_fractions: (0..p.phase_bin_count)
            .map(|bin| bits(bin as f32 / p.phase_bin_count as f32))
            .collect(),
    };
    execute(d, p, last_frequency(p), &candidates, &tables)
}

#[test]
fn deterministic_box_golden_vector() {
    let (dataset, payload) = fixture();
    let result = search(&dataset, &payload).unwrap();
    assert_eq!(result.best_frequency_index, 22);
    assert!((number(result.best_frequency) - 0.5).abs() < 1e-7);
    assert_eq!(result.best_duration_index, 1);
    assert_eq!(result.best_phase_bin, 0);
    assert!((number(result.best_phase) - 0.0).abs() < 1e-7);
    assert!((number(result.best_duration_fraction) - 0.15).abs() < 1e-7);
    assert_eq!(result.in_box_samples, 20);
    assert_eq!(result.out_of_box_samples, 60);
    assert!((number(result.best_score) - 8.714213).abs() < 1e-5);
}

#[test]
fn rejects_invalid_contract_values() {
    let (dataset, mut payload) = fixture();
    payload.phase_bin_count = 1;
    assert_eq!(search(&dataset, &payload), Err(BoxPeriodError::InvalidPhaseBinCount));
}

#[test]
fn every_box_error_has_an_input() {
    let (dataset, payload) = fixture();
    let empty = Dataset { coordinates: None, values: None, times: None, flux: None };
    assert!(matches!(check_grid(&empty, &payload), Err(BoxPeriodError::InvalidSeries)));

    let (mut bad, _) = fixture();
    bad.coordinates.as_mut().unwrap()[3] = bits(f32::INFINITY);
    assert_eq!(search(&bad, &payload), Err(BoxPeriodError::NonFinite));

    let (_, mut p) = fixture();
    p.frequency_count = 0;
    assert_eq!(search(&dataset, &p), Err(BoxPeriodError::InvalidFrequencyGrid));
    assert!(matches!(
        check_shape(&dataset, &payload, bits(f32::INFINITY)),
        Err(BoxPeriodError::InvalidFrequencyGrid)
    ));

    let (_, mut p) = fixture();
    p.duration_fractions = all_bits(&[0.1, 1.0]);
    assert_eq!(search(&dataset, &p), Err(BoxPeriodError::InvalidDurations));

    let (_, mut p) = fixture();
    p.minimum_in_box_samples = 61;
    assert_eq!(search(&dataset, &p), Err(BoxPeriodError::InvalidSampleGates));

    let (_, mut p) = fixture();
    p.minimum_in_box_samples = usize::MAX;
    p.minimum_out_of_box_samples = 1;
    assert_eq!(search(&dataset, &p), Err(BoxPeriodError::InvalidSampleGates));

    let (_, mut p) = fixture();
    p.minimum_in_box_samples = 1;
    p.minimum_out_of_box_samples = usize::MAX;
    assert_eq!(search(&dataset, &p), Err(BoxPeriodError::InvalidSampleGates));

    let (_, mut p) = fixture();
    p.minimum_in_box_samples = 60;
    assert_eq!(search(&dataset, &p), Err(BoxPeriodError::NoValidWindow));
}

#[test]
fn box_errors_speak_plainly() {
    assert_eq!(
        BoxPeriodError::InvalidSeries.message(),
        "dataset must contain matching, nonempty coordinate and value arrays"
    );
    assert_eq!(BoxPeriodError::NonFinite.message(), "input contains a non-finite number");
    assert_eq!(
        BoxPeriodError::InvalidFrequencyGrid.message(),
        "frequency grid must be finite, positive, and nonempty"
    );
    assert_eq!(
        BoxPeriodError::InvalidPhaseBinCount.message(),
        "phase bin count must be at least two"
    );
    assert_eq!(
        BoxPeriodError::InvalidDurations.message(),
        "duration fractions must be finite, nonempty, and between zero and one"
    );
    assert_eq!(
        BoxPeriodError::InvalidSampleGates.message(),
        "sample-count gates cannot be satisfied by this dataset"
    );
    assert_eq!(
        BoxPeriodError::NoValidWindow.message(),
        "no box window satisfied the sample-count gates"
    );
}

#[test]
fn windows_count_samples_around_the_circle() {
    let (_, mut p) = fixture();
    p.phase_bin_count = 4;
    p.minimum_in_box_samples = 2;
    p.minimum_out_of_box_samples = 1;
    // Bin numbers past the last bin fall into it.
    let raw_bins = [0, 0, 1, 3, 9];
    assert_eq!(sample_bins(&raw_bins, 4), vec![0, 0, 1, 3, 3]);
    assert_eq!(bin_counts(&raw_bins, 4), vec![2, 1, 0, 2]);
    let windows = box_windows(&p, &raw_bins, &[2, 0]);
    let inside: Vec<usize> = windows[0].iter().map(|w| w.in_box_samples).collect();
    assert_eq!(inside, vec![3, 1, 2, 4]);
    let admitted: Vec<bool> = windows[0].iter().map(|w| w.admitted).collect();
    assert_eq!(admitted, vec![true, false, true, true]);
    let entering: Vec<usize> = windows[0].iter().map(|w| w.entering).collect();
    assert_eq!(entering, vec![2, 3, 0, 1]);
    // A width of no bins counts as one.
    let narrow: Vec<usize> = windows[1].iter().map(|w| w.in_box_samples).collect();
    assert_eq!(narrow, vec![2, 1, 0, 2]);
    for row in &windows {
        for window in row {
            assert_eq!(window.in_box_samples + window.out_of_box_samples, raw_bins.len());
        }
    }
}

fn candidate(score: f32, frequency_index: usize, duration_index: usize, phase_bin: usize) -> Candidate {
    Candidate {
        score: bits(score),
        frequency_index,
        duration_index,
        phase_bin,
        duration_bins: 1,
        in_box_samples: 1,
        out_of_box_samples: 1,
    }
}

#[test]
fn preference_is_by_score_and_the_lowest_key_wins_ties() {
    let low = candidate(1.0, 0, 0, 0);
    let high = candidate(2.0, 1, 1, 1);
    assert_eq!(select_better(low, high), high);
    assert_eq!(select_better(high, low), high);
    let twin = candidate(2.0, 1, 1, 0);
    assert_eq!(select_better(high, twin), twin);
    assert_eq!(select_better(twin, high), twin);
    let earlier = candidate(2.0, 0, 9, 9);
    assert_eq!(best_candidate(&[Some(low), None, Some(high), Some(twin), Some(earlier)]), Some(earlier));
    assert_eq!(best_candidate(&[Some(earlier), Some(twin), Some(high), Some(low)]), Some(earlier));
    assert_eq!(best_candidate(&[None, None]), None);
}

#[test]
fn gates_beyond_the_number_of_samples_are_refused() {
    let dataset = Dataset {
        coordinates: Some(all_bits(&[0.0, 1.0])),
        values: Some(all_bits(&[1.0, 2.0])),
        times: None,
        flux: None,
    };
    let payload = BoxPeriodPayload {
        start_frequency: bits(1.0),
        frequency_step: bits(1.0),
        frequency_count: 1,
        frequency_start_index: 0,
        phase_bin_count: 2,
        duration_fractions: all_bits(&[0.5]),
        minimum_in_box_samples: usize::MAX,
        minimum_out_of_box_samples: 1,
    };
    assert!(matches!(
        validate(&dataset, &payload, bits(1.0)),
        Err(BoxPeriodError::InvalidSampleGates)
    ));
}
