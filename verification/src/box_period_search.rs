//! The periodic-box search: input checks, the sample counts of circular
//! windows, and the choice of the best window.
//!
//! Phases, sums and scores are computed outside; they come in as raw bin
//! numbers and as score bit patterns.

use crate::float_bits::Bits32;
use crate::kernel::{all_finite, are_all_finite};
use crate::protocol::{BoxPeriodParameters, BoxPeriodPayload, BoxPeriodResult, Dataset};
use vstd::prelude::*;

verus! {

#[derive(Clone, Copy, Debug, PartialEq, Eq, Structural)]
pub enum BoxPeriodError {
    InvalidSeries,
    NonFinite,
    InvalidFrequencyGrid,
    InvalidPhaseBinCount,
    InvalidDurations,
    InvalidSampleGates,
    NoValidWindow,
}

impl BoxPeriodError {
    pub open spec fn message_spec(self) -> Seq<char> {
        match self {
            BoxPeriodError::InvalidSeries =>
                "dataset must contain matching, nonempty coordinate and value arrays"@,
            BoxPeriodError::NonFinite => "input contains a non-finite number"@,
            BoxPeriodError::InvalidFrequencyGrid =>
                "frequency grid must be finite, positive, and nonempty"@,
            BoxPeriodError::InvalidPhaseBinCount => "phase bin count must be at least two"@,
            BoxPeriodError::InvalidDurations =>
                "duration fractions must be finite, nonempty, and between zero and one"@,
            BoxPeriodError::InvalidSampleGates =>
                "sample-count gates cannot be satisfied by this dataset"@,
            BoxPeriodError::NoValidWindow => "no box window satisfied the sample-count gates"@,
        }
    }

    pub fn message(self) -> (r: &'static str)
        ensures
            r@ == self.message_spec(),
    {
        match self {
            BoxPeriodError::InvalidSeries => {
                "dataset must contain matching, nonempty coordinate and value arrays"
            },
            BoxPeriodError::NonFinite => "input contains a non-finite number",
            BoxPeriodError::InvalidFrequencyGrid => {
                "frequency grid must be finite, positive, and nonempty"
            },
            BoxPeriodError::InvalidPhaseBinCount => "phase bin count must be at least two",
            BoxPeriodError::InvalidDurations => {
                "duration fractions must be finite, nonempty, and between zero and one"
            },
            BoxPeriodError::InvalidSampleGates => {
                "sample-count gates cannot be satisfied by this dataset"
            },
            BoxPeriodError::NoValidWindow => "no box window satisfied the sample-count gates",
        }
    }
}

/// A window that passed the sample gates, with its score.
#[derive(Clone, Copy, Debug, PartialEq, Eq, Structural)]
pub struct Candidate {
    pub score: Bits32,
    pub frequency_index: usize,
    pub duration_index: usize,
    pub phase_bin: usize,
    pub duration_bins: usize,
    pub in_box_samples: usize,
    pub out_of_box_samples: usize,
}

/// A circular window over the phase bins, with its sample counts.
#[derive(Clone, Copy, Debug, PartialEq, Eq, Structural)]
pub struct Window {
    /// The first bin of the window; it leaves when the window advances.
    pub phase_bin: usize,
    pub duration_bins: usize,
    /// The bin that enters when the window advances.
    pub entering: usize,
    pub in_box_samples: usize,
    pub out_of_box_samples: usize,
    /// Whether both sample gates are passed.
    pub admitted: bool,
}

pub open spec fn all_proper_fractions(fractions: Seq<Bits32>) -> bool {
    forall|i: int| 0 <= i < fractions.len() ==> (#[trigger] fractions[i]).proper_fraction()
}

pub fn are_all_proper_fractions(fractions: &Vec<Bits32>) -> (r: bool)
    ensures
        r == all_proper_fractions(fractions@),
{
    let mut i: usize = 0;
    while i < fractions.len()
        invariant
            i <= fractions@.len(),
            forall|k: int| 0 <= k < i ==> (#[trigger] fractions@[k]).proper_fraction(),
        decreases fractions.len() - i,
    {
        if !fractions[i].is_proper_fraction() {
            return false;
        }
        i += 1;
    }
    true
}

/// What can be said of the inputs before the last frequency is computed.
pub open spec fn checked_grid(dataset: Dataset, q: BoxPeriodParameters) -> Result<
    (Seq<Bits32>, Seq<Bits32>),
    BoxPeriodError,
> {
    match dataset.series_spec() {
        None => Err(BoxPeriodError::InvalidSeries),
        Some((x, y)) => if x.len() == 0 || x.len() != y.len() {
            Err(BoxPeriodError::InvalidSeries)
        } else if !all_finite(x) || !all_finite(y) {
            Err(BoxPeriodError::NonFinite)
        } else if q.frequency_count == 0 || !q.start_frequency.finite_positive()
            || !q.frequency_step.finite_positive() {
            Err(BoxPeriodError::InvalidFrequencyGrid)
        } else {
            Ok((x, y))
        },
    }
}

/// What can be said of the inputs before the sample gates.
pub open spec fn checked_shape(
    dataset: Dataset,
    q: BoxPeriodParameters,
    last_frequency: Bits32,
) -> Result<(Seq<Bits32>, Seq<Bits32>), BoxPeriodError> {
    match checked_grid(dataset, q) {
        Err(error) => Err(error),
        Ok((x, y)) => if !last_frequency.finite_positive() {
            Err(BoxPeriodError::InvalidFrequencyGrid)
        } else if q.phase_bin_count < 2 {
            Err(BoxPeriodError::InvalidPhaseBinCount)
        } else if q.duration_fractions.len() == 0 || !all_proper_fractions(q.duration_fractions) {
            Err(BoxPeriodError::InvalidDurations)
        } else {
            Ok((x, y))
        },
    }
}

/// Whether a series can be searched with a payload.
pub open spec fn validated(
    dataset: Dataset,
    q: BoxPeriodParameters,
    last_frequency: Bits32,
) -> Result<(Seq<Bits32>, Seq<Bits32>), BoxPeriodError> {
    match checked_shape(dataset, q, last_frequency) {
        Err(error) => Err(error),
        Ok((x, y)) => if q.minimum_in_box_samples == 0 || q.minimum_out_of_box_samples == 0
            || q.minimum_in_box_samples + q.minimum_out_of_box_samples > x.len() {
            Err(BoxPeriodError::InvalidSampleGates)
        } else {
            Ok((x, y))
        },
    }
}

pub open spec fn series_outcome(
    r: Result<(&[Bits32], &[Bits32]), BoxPeriodError>,
) -> Result<(Seq<Bits32>, Seq<Bits32>), BoxPeriodError> {
    match r {
        Ok((x, y)) => Ok((x@, y@)),
        Err(error) => Err(error),
    }
}

pub fn check_grid<'a>(dataset: &'a Dataset, payload: &BoxPeriodPayload) -> (r: Result<
    (&'a [Bits32], &'a [Bits32]),
    BoxPeriodError,
>)
    ensures
        series_outcome(r) == checked_grid(*dataset, payload@),
{
    let (x, y) = match dataset.series() {
        Some(series) => series,
        None => {
            return Err(BoxPeriodError::InvalidSeries);
        },
    };
    if x.len() == 0 || x.len() != y.len() {
        return Err(BoxPeriodError::InvalidSeries);
    }
    if !are_all_finite(x) || !are_all_finite(y) {
        return Err(BoxPeriodError::NonFinite);
    }
    if payload.frequency_count == 0 || !payload.start_frequency.is_finite_positive()
        || !payload.frequency_step.is_finite_positive() {
        return Err(BoxPeriodError::InvalidFrequencyGrid);
    }
    Ok((x, y))
}

pub fn check_shape<'a>(
    dataset: &'a Dataset,
    payload: &BoxPeriodPayload,
    last_frequency: Bits32,
) -> (r: Result<(&'a [Bits32], &'a [Bits32]), BoxPeriodError>)
    ensures
        series_outcome(r) == checked_shape(*dataset, payload@, last_frequency),
{
    let (x, y) = match check_grid(dataset, payload) {
        Ok(series) => series,
        Err(error) => {
            return Err(error);
        },
    };
    if !last_frequency.is_finite_positive() {
        return Err(BoxPeriodError::InvalidFrequencyGrid);
    }
    if payload.phase_bin_count < 2 {
        return Err(BoxPeriodError::InvalidPhaseBinCount);
    }
    if payload.duration_fractions.len() == 0 || !are_all_proper_fractions(
        &payload.duration_fractions,
    ) {
        return Err(BoxPeriodError::InvalidDurations);
    }
    Ok((x, y))
}

pub fn validate<'a>(
    dataset: &'a Dataset,
    payload: &BoxPeriodPayload,
    last_frequency: Bits32,
) -> (r: Result<(&'a [Bits32], &'a [Bits32]), BoxPeriodError>)
    ensures
        series_outcome(r) == validated(*dataset, payload@, last_frequency),
{
    let (x, y) = match check_shape(dataset, payload, last_frequency) {
        Ok(series) => series,
        Err(error) => {
            return Err(error);
        },
    };
    if payload.minimum_in_box_samples == 0 || payload.minimum_out_of_box_samples == 0
        || payload.minimum_in_box_samples > x.len() || payload.minimum_out_of_box_samples > x.len()
        - payload.minimum_in_box_samples {
        return Err(BoxPeriodError::InvalidSampleGates);
    }
    Ok((x, y))
}

/// The bin of a sample: numbers past the end belong to the last bin.
pub open spec fn bin_of(raw: usize, bins: int) -> int {
    if raw < bins {
        raw as int
    } else {
        bins - 1
    }
}

/// The width of a window in bins: at least one, and never the whole circle.
pub open spec fn width_of(raw: usize, bins: int) -> int {
    if raw < 1 {
        1
    } else if raw > bins - 1 {
        bins - 1
    } else {
        raw as int
    }
}

/// `bin` is among the `width` bins that follow `first` round the circle,
/// itself included.
pub open spec fn in_window(bin: int, first: int, width: int, bins: int) -> bool {
    if bin >= first {
        bin - first < width
    } else {
        bin + bins - first < width
    }
}

/// How many samples lie in a window.
pub open spec fn samples_inside(raw: Seq<usize>, first: int, width: int, bins: int) -> nat
    decreases raw.len(),
{
    if raw.len() == 0 {
        0
    } else {
        let rest = samples_inside(raw.drop_last(), first, width, bins);
        if in_window(bin_of(raw.last(), bins), first, width, bins) {
            rest + 1
        } else {
            rest
        }
    }
}

/// The bin that enters when a window advances by one.
pub open spec fn entering_bin(first: int, width: int, bins: int) -> int {
    if first + width < bins {
        first + width
    } else {
        first + width - bins
    }
}

/// The first bin after `first` round the circle.
pub open spec fn next_bin(first: int, bins: int) -> int {
    if first + 1 < bins {
        first + 1
    } else {
        0
    }
}

/// The window of one duration that starts at one bin.
pub open spec fn window_at(
    q: BoxPeriodParameters,
    raw_bins: Seq<usize>,
    raw_width: usize,
    phase_bin: int,
) -> Window {
    let bins = q.phase_bin_count as int;
    let width = width_of(raw_width, bins);
    let inside = samples_inside(raw_bins, phase_bin, width, bins);
    let outside = raw_bins.len() - inside;
    Window {
        phase_bin: phase_bin as usize,
        duration_bins: width as usize,
        entering: entering_bin(phase_bin, width, bins) as usize,
        in_box_samples: inside as usize,
        out_of_box_samples: outside as usize,
        admitted: inside >= q.minimum_in_box_samples && outside >= q.minimum_out_of_box_samples,
    }
}

/// All windows: a row for each duration, an entry for each first bin.
pub open spec fn windows_match(
    q: BoxPeriodParameters,
    raw_bins: Seq<usize>,
    raw_widths: Seq<usize>,
    windows: Seq<Vec<Window>>,
) -> bool {
    &&& windows.len() == raw_widths.len()
    &&& forall|d: int, b: int|
        0 <= d < raw_widths.len() && 0 <= b < q.phase_bin_count ==> (
        #[trigger] windows[d]@[b]) == window_at(q, raw_bins, raw_widths[d], b)
    &&& forall|d: int|
        0 <= d < raw_widths.len() ==> (#[trigger] windows[d])@.len() == q.phase_bin_count
}

proof fn inside_is_bounded(raw: Seq<usize>, first: int, width: int, bins: int)
    ensures
        samples_inside(raw, first, width, bins) <= raw.len(),
    decreases raw.len(),
{
    if raw.len() > 0 {
        inside_is_bounded(raw.drop_last(), first, width, bins);
    }
}

/// Widening a window by one bin adds the samples of that bin.
proof fn widening_adds_a_bin(raw: Seq<usize>, first: int, width: int, bins: int)
    requires
        0 <= first < bins,
        0 <= width < bins,
    ensures
        samples_inside(raw, first, width + 1, bins) == samples_inside(raw, first, width, bins)
            + samples_inside(raw, entering_bin(first, width, bins), 1, bins),
    decreases raw.len(),
{
    if raw.len() > 0 {
        widening_adds_a_bin(raw.drop_last(), first, width, bins);
    }
}

/// Advancing a window by one bin takes the samples of the entering bin in and
/// lets those of the first bin out.
proof fn advancing_swaps_two_bins(raw: Seq<usize>, first: int, width: int, bins: int)
    requires
        0 <= first < bins,
        1 <= width < bins,
    ensures
        samples_inside(raw, next_bin(first, bins), width, bins) + samples_inside(
            raw,
            first,
            1,
            bins,
        ) == samples_inside(raw, first, width, bins) + samples_inside(
            raw,
            entering_bin(first, width, bins),
            1,
            bins,
        ),
    decreases raw.len(),
{
    if raw.len() > 0 {
        advancing_swaps_two_bins(raw.drop_last(), first, width, bins);
    }
}

proof fn nothing_in_an_empty_window(raw: Seq<usize>, first: int, bins: int)
    requires
        0 <= first < bins,
    ensures
        samples_inside(raw, first, 0, bins) == 0,
    decreases raw.len(),
{
    if raw.len() > 0 {
        nothing_in_an_empty_window(raw.drop_last(), first, bins);
    }
}

/// Each sample has its bin.
pub open spec fn bins_match(raw_bins: Seq<usize>, bins: int, sampled: Seq<usize>) -> bool {
    &&& sampled.len() == raw_bins.len()
    &&& forall|i: int|
        0 <= i < sampled.len() ==> #[trigger] sampled[i] == bin_of(raw_bins[i], bins) && sampled[i]
            < bins
}

/// The bins of the samples.
pub fn sample_bins(raw_bins: &[usize], bins: usize) -> (r: Vec<usize>)
    requires
        bins >= 1,
    ensures
        bins_match(raw_bins@, bins as int, r@),
{
    let mut sampled: Vec<usize> = Vec::new();
    let mut i: usize = 0;
    while i < raw_bins.len()
        invariant
            bins >= 1,
            i <= raw_bins@.len(),
            sampled@.len() == i,
            forall|k: int|
                0 <= k < i ==> #[trigger] sampled@[k] == bin_of(raw_bins@[k], bins as int)
                    && sampled@[k] < bins,
        decreases raw_bins.len() - i,
    {
        let raw: usize = raw_bins[i];
        sampled.push(if raw < bins { raw } else { bins - 1 });
        i += 1;
    }
    sampled
}

/// How many samples fall into each bin.
pub fn bin_counts(raw_bins: &[usize], bins: usize) -> (counts: Vec<usize>)
    requires
        bins >= 1,
    ensures
        counts@.len() == bins,
        forall|b: int|
            0 <= b < bins ==> #[trigger] counts@[b] == samples_inside(raw_bins@, b, 1, bins as int),
{
    let mut counts: Vec<usize> = Vec::new();
    while counts.len() < bins
        invariant
            counts@.len() <= bins,
            forall|b: int| 0 <= b < counts@.len() ==> #[trigger] counts@[b] == 0,
        decreases bins - counts.len(),
    {
        counts.push(0);
    }
    assert(raw_bins@.take(0) =~= Seq::<usize>::empty());
    let sampled = sample_bins(raw_bins, bins);
    let mut i: usize = 0;
    while i < raw_bins.len()
        invariant
            bins >= 1,
            i <= raw_bins@.len(),
            sampled@.len() == raw_bins@.len(),
            forall|k: int|
                0 <= k < sampled@.len() ==> #[trigger] sampled@[k] == bin_of(
                    raw_bins@[k],
                    bins as int,
                ) && sampled@[k] < bins,
            counts@.len() == bins,
            forall|b: int|
                0 <= b < bins ==> #[trigger] counts@[b] == samples_inside(
                    raw_bins@.take(i as int),
                    b,
                    1,
                    bins as int,
                ),
        decreases raw_bins.len() - i,
    {
        let bin: usize = sampled[i];
        let count: usize = counts[bin];
        proof {
            inside_is_bounded(raw_bins@.take(i as int), bin as int, 1, bins as int);
            assert(raw_bins@.take(i + 1).drop_last() =~= raw_bins@.take(i as int));
            assert(raw_bins@.take(i + 1).last() == raw_bins@[i as int]);
        }
        counts.set(bin, count + 1);
        i += 1;
    }
    assert(raw_bins@.take(i as int) =~= raw_bins@);
    counts
}

/// The windows of one duration, found by sliding one window round the circle.
fn slide(
    payload: &BoxPeriodPayload,
    raw_bins: &[usize],
    counts: &Vec<usize>,
    raw_width: usize,
) -> (row: Vec<Window>)
    requires
        payload.phase_bin_count >= 2,
        counts@.len() == payload.phase_bin_count,
        forall|b: int|
            0 <= b < counts@.len() ==> #[trigger] counts@[b] == samples_inside(
                raw_bins@,
                b,
                1,
                counts@.len() as int,
            ),
    ensures
        row@.len() == payload.phase_bin_count,
        forall|b: int|
            0 <= b < row@.len() ==> #[trigger] row@[b] == window_at(
                payload@,
                raw_bins@,
                raw_width,
                b,
            ),
{
    let bins: usize = payload.phase_bin_count;
    let width: usize = if raw_width < 1 {
        1
    } else if raw_width > bins - 1 {
        bins - 1
    } else {
        raw_width
    };
    let total: usize = raw_bins.len();
    let mut inside: usize = 0;
    let mut k: usize = 0;
    proof {
        nothing_in_an_empty_window(raw_bins@, 0, bins as int);
    }
    while k < width
        invariant
            k <= width < bins,
            total == raw_bins@.len(),
            counts@.len() == bins,
            forall|b: int|
                0 <= b < bins ==> #[trigger] counts@[b] == samples_inside(
                    raw_bins@,
                    b,
                    1,
                    bins as int,
                ),
            inside == samples_inside(raw_bins@, 0, k as int, bins as int),
        decreases width - k,
    {
        proof {
            widening_adds_a_bin(raw_bins@, 0, k as int, bins as int);
            inside_is_bounded(raw_bins@, 0, k + 1, bins as int);
        }
        inside = inside + counts[k];
        k += 1;
    }
    let mut row: Vec<Window> = Vec::new();
    let mut phase_bin: usize = 0;
    while phase_bin < bins
        invariant
            bins == payload.phase_bin_count,
            total == raw_bins@.len(),
            1 <= width < bins,
            width == width_of(raw_width, bins as int),
            counts@.len() == bins,
            forall|b: int|
                0 <= b < bins ==> #[trigger] counts@[b] == samples_inside(
                    raw_bins@,
                    b,
                    1,
                    bins as int,
                ),
            phase_bin <= bins,
            row@.len() == phase_bin,
            inside == samples_inside(
                raw_bins@,
                if phase_bin < bins {
                    phase_bin as int
                } else {
                    0
                },
                width as int,
                bins as int,
            ),
            forall|b: int|
                0 <= b < phase_bin ==> #[trigger] row@[b] == window_at(
                    payload@,
                    raw_bins@,
                    raw_width,
                    b,
                ),
        decreases bins - phase_bin,
    {
        proof {
            inside_is_bounded(raw_bins@, phase_bin as int, width as int, bins as int);
            widening_adds_a_bin(raw_bins@, phase_bin as int, width as int, bins as int);
            inside_is_bounded(raw_bins@, phase_bin as int, width + 1, bins as int);
            advancing_swaps_two_bins(raw_bins@, phase_bin as int, width as int, bins as int);
        }
        let outside: usize = total - inside;
        let entering: usize = if phase_bin < bins - width {
            phase_bin + width
        } else {
            phase_bin - (bins - width)
        };
        let admitted: bool = inside >= payload.minimum_in_box_samples && outside
            >= payload.minimum_out_of_box_samples;
        row.push(
            Window {
                phase_bin,
                duration_bins: width,
                entering,
                in_box_samples: inside,
                out_of_box_samples: outside,
                admitted,
            },
        );
        assert(counts@[entering as int] == samples_inside(
            raw_bins@,
            entering as int,
            1,
            bins as int,
        ));
        assert(counts@[phase_bin as int] == samples_inside(
            raw_bins@,
            phase_bin as int,
            1,
            bins as int,
        ));
        inside = inside + counts[entering] - counts[phase_bin];
        phase_bin += 1;
    }
    row
}

/// All windows of one trial frequency, from the raw bins of the samples and
/// the raw widths of the durations.
pub fn box_windows(
    payload: &BoxPeriodPayload,
    raw_bins: &[usize],
    raw_widths: &[usize],
) -> (windows: Vec<Vec<Window>>)
    requires
        payload.phase_bin_count >= 2,
    ensures
        windows_match(payload@, raw_bins@, raw_widths@, windows@),
{
    let counts = bin_counts(raw_bins, payload.phase_bin_count);
    let mut windows: Vec<Vec<Window>> = Vec::new();
    let mut d: usize = 0;
    while d < raw_widths.len()
        invariant
            payload.phase_bin_count >= 2,
            counts@.len() == payload.phase_bin_count,
            forall|b: int|
                0 <= b < counts@.len() ==> #[trigger] counts@[b] == samples_inside(
                    raw_bins@,
                    b,
                    1,
                    counts@.len() as int,
                ),
            d <= raw_widths@.len(),
            windows_match(payload@, raw_bins@, raw_widths@.take(d as int), windows@),
        decreases raw_widths.len() - d,
    {
        let row = slide(payload, raw_bins, &counts, raw_widths[d]);
        let ghost before = windows@;
        windows.push(row);
        proof {
            let old_widths = raw_widths@.take(d as int);
            let widths = raw_widths@.take(d + 1);
            assert forall|e: int, b: int|
                0 <= e < widths.len() && 0 <= b < payload@.phase_bin_count implies (
            #[trigger] windows@[e]@[b]) == window_at(payload@, raw_bins@, widths[e], b) by {
                if e < d {
                    assert(before[e]@[b] == window_at(payload@, raw_bins@, old_widths[e], b));
                    assert(windows@[e] == before[e]);
                } else {
                    assert(windows@[e] == row);
                }
            }
            assert forall|e: int| 0 <= e < widths.len() implies (#[trigger] windows@[e])@.len()
                == payload@.phase_bin_count by {
                if e < d {
                    assert(windows@[e] == before[e]);
                }
            }
        }
        d += 1;
    }
    assert(raw_widths@.take(d as int) =~= raw_widths@);
    windows
}

/// Where a candidate stands in the search.
pub open spec fn key_precedes(a: Candidate, b: Candidate) -> bool {
    ||| a.frequency_index < b.frequency_index
    ||| a.frequency_index == b.frequency_index && a.duration_index < b.duration_index
    ||| a.frequency_index == b.frequency_index && a.duration_index == b.duration_index
        && a.phase_bin < b.phase_bin
}

pub open spec fn same_key(a: Candidate, b: Candidate) -> bool {
    a.frequency_index == b.frequency_index && a.duration_index == b.duration_index && a.phase_bin
        == b.phase_bin
}

/// `a` is to be preferred to `b`: its score is greater, or equal and it comes
/// earlier in the search.
pub open spec fn beats(a: Candidate, b: Candidate) -> bool {
    a.score.rank() > b.score.rank() || a.score.rank() == b.score.rank() && key_precedes(a, b)
}

pub open spec fn better(current: Candidate, candidate: Candidate) -> Candidate {
    if beats(candidate, current) {
        candidate
    } else {
        current
    }
}

pub fn select_better(current: Candidate, candidate: Candidate) -> (r: Candidate)
    ensures
        r == better(current, candidate),
{
    let earlier: bool = candidate.frequency_index < current.frequency_index || (
    candidate.frequency_index == current.frequency_index && (candidate.duration_index
        < current.duration_index || (candidate.duration_index == current.duration_index
        && candidate.phase_bin < current.phase_bin)));
    let greater: bool = candidate.score.exceeds(current.score);
    let smaller: bool = current.score.exceeds(candidate.score);
    if greater || (!smaller && earlier) {
        candidate
    } else {
        current
    }
}

/// Preference is a strict order that decides between any two different places
/// in the search, so the best candidate does not depend on the order in which
/// candidates are compared.
pub proof fn preference_is_order_independent(a: Candidate, b: Candidate, c: Candidate)
    requires
        !same_key(a, b),
    ensures
        better(a, b) == better(b, a),
        better(better(a, b), c) == better(a, better(b, c)),
        beats(a, b) != beats(b, a),
        beats(a, b) && beats(b, c) ==> beats(a, c),
        !beats(a, a),
{
}

/// The score of a window counts: it was admitted and the score is a number.
pub open spec fn eligible(windows: Seq<Vec<Window>>, scores: Seq<Vec<Bits32>>, d: int, b: int)
    -> bool {
    &&& 0 <= d < windows.len()
    &&& 0 <= b < windows[d]@.len()
    &&& windows[d]@[b].admitted
    &&& scores[d]@[b].finite()
}

/// The candidate of a window.
pub open spec fn candidate_at(
    frequency_index: usize,
    windows: Seq<Vec<Window>>,
    scores: Seq<Vec<Bits32>>,
    d: int,
    b: int,
) -> Candidate {
    let window = windows[d]@[b];
    Candidate {
        score: scores[d]@[b],
        frequency_index,
        duration_index: d as usize,
        phase_bin: window.phase_bin,
        duration_bins: window.duration_bins,
        in_box_samples: window.in_box_samples,
        out_of_box_samples: window.out_of_box_samples,
    }
}

/// `best` is the candidate of an eligible window that no other eligible window
/// beats, or there is none.
pub open spec fn best_window(
    frequency_index: usize,
    windows: Seq<Vec<Window>>,
    scores: Seq<Vec<Bits32>>,
    best: Option<Candidate>,
) -> bool {
    match best {
        None => forall|d: int, b: int| !eligible(windows, scores, d, b),
        Some(c) => {
            &&& exists|d: int, b: int| #[trigger]
                eligible(windows, scores, d, b) && c == candidate_at(
                    frequency_index,
                    windows,
                    scores,
                    d,
                    b,
                )
            &&& forall|d: int, b: int| #[trigger]
                eligible(windows, scores, d, b) ==> !beats(
                    candidate_at(frequency_index, windows, scores, d, b),
                    c,
                )
        },
    }
}

/// The same, of the windows before row `row` and entry `column`.
spec fn best_so_far(
    frequency_index: usize,
    windows: Seq<Vec<Window>>,
    scores: Seq<Vec<Bits32>>,
    row: int,
    column: int,
    best: Option<Candidate>,
) -> bool {
    match best {
        None => forall|d: int, b: int|
            (d < row || d == row && b < column) ==> !#[trigger] eligible(windows, scores, d, b),
        Some(c) => {
            &&& exists|d: int, b: int| #[trigger]
                eligible(windows, scores, d, b) && c == candidate_at(
                    frequency_index,
                    windows,
                    scores,
                    d,
                    b,
                )
            &&& forall|d: int, b: int|
                #[trigger] eligible(windows, scores, d, b) && (d < row || d == row && b < column)
                    ==> !beats(candidate_at(frequency_index, windows, scores, d, b), c)
        },
    }
}

/// The best window of one trial frequency.
pub fn score_frequency(
    frequency_index: usize,
    windows: &Vec<Vec<Window>>,
    scores: &Vec<Vec<Bits32>>,
) -> (best: Option<Candidate>)
    requires
        scores@.len() == windows@.len(),
        forall|d: int|
            0 <= d < windows@.len() ==> (#[trigger] scores@[d])@.len() == windows@[d]@.len(),
    ensures
        best_window(frequency_index, windows@, scores@, best),
{
    let mut best: Option<Candidate> = None;
    let mut d: usize = 0;
    while d < windows.len()
        invariant
            scores@.len() == windows@.len(),
            forall|e: int|
                0 <= e < windows@.len() ==> (#[trigger] scores@[e])@.len() == windows@[e]@.len(),
            d <= windows@.len(),
            best_so_far(frequency_index, windows@, scores@, d as int, 0, best),
        decreases windows.len() - d,
    {
        let mut b: usize = 0;
        assert(scores@[d as int]@.len() == windows@[d as int]@.len());
        while b < windows[d].len()
            invariant
                scores@.len() == windows@.len(),
                d < windows@.len(),
                scores@[d as int]@.len() == windows@[d as int]@.len(),
                b <= windows@[d as int]@.len(),
                best_so_far(frequency_index, windows@, scores@, d as int, b as int, best),
            decreases windows@[d as int]@.len() - b,
        {
            let window: Window = windows[d][b];
            let score: Bits32 = scores[d][b];
            let ghost before = best;
            if window.admitted && score.is_finite() {
                let candidate = Candidate {
                    score,
                    frequency_index,
                    duration_index: d,
                    phase_bin: window.phase_bin,
                    duration_bins: window.duration_bins,
                    in_box_samples: window.in_box_samples,
                    out_of_box_samples: window.out_of_box_samples,
                };
                assert(eligible(windows@, scores@, d as int, b as int));
                assert(candidate == candidate_at(
                    frequency_index,
                    windows@,
                    scores@,
                    d as int,
                    b as int,
                ));
                best = match best {
                    None => Some(candidate),
                    Some(current) => Some(select_better(current, candidate)),
                };
            }
            b += 1;
        }
        assert(best_so_far(frequency_index, windows@, scores@, d + 1, 0, best)) by {
            assert forall|e: int, c: int|
                #[trigger] eligible(windows@, scores@, e, c) && e <= d implies e < d || e == d && c
                < b by {}
        }
        d += 1;
    }
    assert forall|e: int, c: int| #[trigger] eligible(windows@, scores@, e, c) implies e < d by {}
    best
}

/// The windows of a frequency have at most one best among them.
pub proof fn best_window_is_unique(
    q: BoxPeriodParameters,
    raw_bins: Seq<usize>,
    raw_widths: Seq<usize>,
    frequency_index: usize,
    windows: Seq<Vec<Window>>,
    scores: Seq<Vec<Bits32>>,
    one: Option<Candidate>,
    other: Option<Candidate>,
)
    requires
        raw_widths.len() <= usize::MAX,
        windows_match(q, raw_bins, raw_widths, windows),
        best_window(frequency_index, windows, scores, one),
        best_window(frequency_index, windows, scores, other),
    ensures
        one == other,
{
    if let (Some(c), Some(e)) = (one, other) {
        let (d, b) = choose|d: int, b: int| #[trigger]
            eligible(windows, scores, d, b) && c == candidate_at(
                frequency_index,
                windows,
                scores,
                d,
                b,
            );
        let (f, g) = choose|f: int, g: int| #[trigger]
            eligible(windows, scores, f, g) && e == candidate_at(
                frequency_index,
                windows,
                scores,
                f,
                g,
            );
        assert(windows[d]@[b] == window_at(q, raw_bins, raw_widths[d], b));
        assert(windows[f]@[g] == window_at(q, raw_bins, raw_widths[f], g));
        assert(!beats(c, e) && !beats(e, c));
        assert(d == f && b == g);
    }
}

/// `c` is one of the candidates, and none of them beats it.
pub open spec fn unbeaten(candidates: Seq<Option<Candidate>>, c: Candidate) -> bool {
    &&& candidates.contains(Some(c))
    &&& forall|i: int|
        0 <= i < candidates.len() ==> (#[trigger] candidates[i] matches Some(other) ==> !beats(
            other,
            c,
        ))
}

/// Each candidate stands at the place of its frequency.
pub open spec fn in_frequency_order(candidates: Seq<Option<Candidate>>) -> bool {
    forall|i: int|
        0 <= i < candidates.len() ==> (#[trigger] candidates[i] matches Some(c)
            ==> c.frequency_index == i)
}

/// At most one candidate is unbeaten.
pub proof fn unbeaten_is_unique(candidates: Seq<Option<Candidate>>, a: Candidate, b: Candidate)
    requires
        in_frequency_order(candidates),
        unbeaten(candidates, a),
        unbeaten(candidates, b),
    ensures
        a == b,
{
    let i = choose|i: int| 0 <= i < candidates.len() && candidates[i] == Some(a);
    let j = choose|j: int| 0 <= j < candidates.len() && candidates[j] == Some(b);
    assert(candidates[i] == Some(a));
    assert(candidates[j] == Some(b));
}

/// No frequency has a candidate.
pub open spec fn without_candidate(candidates: Seq<Option<Candidate>>) -> bool {
    forall|i: int| 0 <= i < candidates.len() ==> #[trigger] candidates[i] is None
}

/// The best candidate of all frequencies, if there is one.
pub fn best_candidate(candidates: &[Option<Candidate>]) -> (best: Option<Candidate>)
    ensures
        match best {
            None => without_candidate(candidates@),
            Some(c) => unbeaten(candidates@, c),
        },
{
    let mut best: Option<Candidate> = None;
    let mut i: usize = 0;
    while i < candidates.len()
        invariant
            i <= candidates@.len(),
            match best {
                None => forall|k: int| 0 <= k < i ==> #[trigger] candidates@[k] is None,
                Some(c) => candidates@.contains(Some(c)) && forall|k: int|
                    0 <= k < i ==> (#[trigger] candidates@[k] matches Some(other) ==> !beats(
                        other,
                        c,
                    )),
            },
        decreases candidates.len() - i,
    {
        if let Some(candidate) = candidates[i] {
            assert(candidates@[i as int] == Some(candidate));
            best = match best {
                None => Some(candidate),
                Some(current) => Some(select_better(current, candidate)),
            };
        }
        i += 1;
    }
    best
}

/// The winner among the best windows of the frequencies is the best of all
/// windows of all frequencies, and where no frequency has a best window, no
/// window is eligible.
pub proof fn winner_is_best_of_all_windows(
    windows: Seq<Seq<Vec<Window>>>,
    scores: Seq<Seq<Vec<Bits32>>>,
    candidates: Seq<Option<Candidate>>,
)
    requires
        windows.len() == candidates.len(),
        scores.len() == candidates.len(),
        candidates.len() <= usize::MAX,
        forall|f: int|
            0 <= f < candidates.len() ==> best_window(
                f as usize,
                windows[f],
                scores[f],
                #[trigger] candidates[f],
            ),
    ensures
        forall|c: Candidate, f: int, d: int, b: int|
            #![trigger unbeaten(candidates, c), eligible(windows[f], scores[f], d, b)]
            unbeaten(candidates, c) && 0 <= f < candidates.len() && eligible(
                windows[f],
                scores[f],
                d,
                b,
            ) ==> !beats(candidate_at(f as usize, windows[f], scores[f], d, b), c),
        (forall|f: int| 0 <= f < candidates.len() ==> #[trigger] candidates[f] is None) ==> forall|
            f: int,
            d: int,
            b: int,
        |
            0 <= f < candidates.len() ==> !#[trigger] eligible(windows[f], scores[f], d, b),
{
    assert forall|c: Candidate, f: int, d: int, b: int|
        #![trigger unbeaten(candidates, c), eligible(windows[f], scores[f], d, b)]
        unbeaten(candidates, c) && 0 <= f < candidates.len() && eligible(
            windows[f],
            scores[f],
            d,
            b,
        ) implies !beats(candidate_at(f as usize, windows[f], scores[f], d, b), c) by {
        assert(best_window(f as usize, windows[f], scores[f], candidates[f]));
    }
    assert forall|f: int, d: int, b: int|
        (forall|g: int| 0 <= g < candidates.len() ==> #[trigger] candidates[g] is None) && 0 <= f
            < candidates.len() implies !#[trigger] eligible(windows[f], scores[f], d, b) by {
        assert(best_window(f as usize, windows[f], scores[f], candidates[f]));
    }
}

/// A window parts the samples: those inside and those outside make all.
pub proof fn windows_part_the_samples(
    q: BoxPeriodParameters,
    raw_bins: Seq<usize>,
    raw_width: usize,
    phase_bin: int,
)
    requires
        raw_bins.len() <= usize::MAX,
    ensures
        ({
            let window = window_at(q, raw_bins, raw_width, phase_bin);
            window.in_box_samples + window.out_of_box_samples == raw_bins.len()
        }),
{
    let bins = q.phase_bin_count as int;
    inside_is_bounded(raw_bins, phase_bin, width_of(raw_width, bins), bins);
}

/// The numbers that a result is made of, besides the winning window.
pub struct BoxTables {
    /// The trial frequencies.
    pub frequencies: Vec<Bits32>,
    /// The fraction of the circle that each number of bins makes.
    pub bin_fractions: Vec<Bits32>,
}

/// The result that a winning window stands for.
pub open spec fn box_result(q: BoxPeriodParameters, tables: BoxTables, c: Candidate)
    -> BoxPeriodResult {
    BoxPeriodResult {
        best_frequency: tables.frequencies@[c.frequency_index as int],
        best_score: c.score,
        best_phase: tables.bin_fractions@[c.phase_bin as int],
        best_duration_fraction: tables.bin_fractions@[c.duration_bins as int],
        best_frequency_index: (q.frequency_start_index + c.frequency_index) as usize,
        best_duration_index: c.duration_index,
        best_phase_bin: c.phase_bin,
        in_box_samples: c.in_box_samples,
        out_of_box_samples: c.out_of_box_samples,
    }
}

/// The candidates and tables belong to the payload: one entry for each
/// frequency, one fraction for each bin, and windows within the circle.
pub open spec fn belongs(
    q: BoxPeriodParameters,
    candidates: Seq<Option<Candidate>>,
    tables: BoxTables,
) -> bool {
    &&& candidates.len() == q.frequency_count
    &&& in_frequency_order(candidates)
    &&& tables.frequencies@.len() == q.frequency_count
    &&& tables.bin_fractions@.len() == q.phase_bin_count
    &&& forall|i: int|
        0 <= i < candidates.len() ==> (#[trigger] candidates[i] matches Some(c) ==> c.phase_bin
            < q.phase_bin_count && c.duration_bins < q.phase_bin_count)
}

/// The winner's index within the whole search is representable.
pub open spec fn winner_index_fits(q: BoxPeriodParameters, candidates: Seq<Option<Candidate>>)
    -> bool {
    forall|c: Candidate| #[trigger]
        unbeaten(candidates, c) ==> q.frequency_start_index + c.frequency_index <= usize::MAX
}

/// Runs a search over scored frequencies.
pub fn execute(
    dataset: &Dataset,
    payload: &BoxPeriodPayload,
    last_frequency: Bits32,
    candidates: &[Option<Candidate>],
    tables: &BoxTables,
) -> (r: Result<BoxPeriodResult, BoxPeriodError>)
    requires
        validated(*dataset, payload@, last_frequency) is Ok ==> belongs(
            payload@,
            candidates@,
            *tables,
        ) && winner_index_fits(payload@, candidates@),
    ensures
        match validated(*dataset, payload@, last_frequency) {
            Err(error) => r == Err::<BoxPeriodResult, BoxPeriodError>(error),
            Ok(_) => match r {
                Ok(result) => exists|c: Candidate| #[trigger]
                    unbeaten(candidates@, c) && result == box_result(payload@, *tables, c),
                Err(error) => error == BoxPeriodError::NoValidWindow && without_candidate(
                    candidates@,
                ),
            },
        },
{
    match validate(dataset, payload, last_frequency) {
        Ok(_) => {},
        Err(error) => {
            return Err(error);
        },
    }
    match best_candidate(candidates) {
        None => Err(BoxPeriodError::NoValidWindow),
        Some(c) => {
            proof {
                let i = choose|i: int| 0 <= i < candidates@.len() && candidates@[i] == Some(c);
                assert(candidates@[i] == Some(c));
            }
            Ok(
                BoxPeriodResult {
                    best_frequency: tables.frequencies[c.frequency_index],
                    best_score: c.score,
                    best_phase: tables.bin_fractions[c.phase_bin],
                    best_duration_fraction: tables.bin_fractions[c.duration_bins],
                    best_frequency_index: payload.frequency_start_index + c.frequency_index,
                    best_duration_index: c.duration_index,
                    best_phase_bin: c.phase_bin,
                    in_box_samples: c.in_box_samples,
                    out_of_box_samples: c.out_of_box_samples,
                },
            )
        },
    }
}

} // verus!
