//! What holds of every periodic-box search.

use crate::box_period_search::{
    beats, best_window, better, bin_counts, bin_of, bins_match, box_result, candidate_at,
    checked_grid, eligible, in_frequency_order, in_window, sample_bins, samples_inside, unbeaten,
    validated, window_at, windows_match, BoxPeriodError, BoxTables, Candidate, Window,
};
use crate::float_bits::Bits32;
use crate::kernel_laws::numbers_are_finite;
use crate::protocol::{BoxPeriodParameters, BoxPeriodResult, Dataset};
use vstd::prelude::*;

verus! {

/// The dataset has a nonempty series of finite numbers, as many values as
/// coordinates, and the grid of frequencies begins and rises by finite positive
/// numbers.
pub open spec fn has_grid(dataset: Dataset, q: BoxPeriodParameters) -> bool {
    dataset.series_spec() matches Some((x, y)) && 0 < x.len() == y.len() && numbers_are_finite(x)
        && numbers_are_finite(y) && q.frequency_count > 0 && q.start_frequency.finite_positive()
        && q.frequency_step.finite_positive()
}

/// Every duration is a proper fraction of the circle, and there is one.
pub open spec fn durations_are_fractions(durations: Seq<Bits32>) -> bool {
    durations.len() > 0 && forall|i: int|
        0 <= i < durations.len() ==> (#[trigger] durations[i]).proper_fraction()
}

/// Inputs are accepted exactly where a window could satisfy them, and then the
/// series that is searched is the dataset's.
pub proof fn searchable_box_inputs_are_accepted(
    dataset: Dataset,
    q: BoxPeriodParameters,
    last_frequency: Bits32,
)
    ensures
        checked_grid(dataset, q) is Ok <==> has_grid(dataset, q),
        validated(dataset, q, last_frequency) is Ok <==> has_grid(dataset, q)
            && last_frequency.finite_positive() && q.phase_bin_count >= 2
            && durations_are_fractions(q.duration_fractions) && q.minimum_in_box_samples >= 1
            && q.minimum_out_of_box_samples >= 1 && q.minimum_in_box_samples
            + q.minimum_out_of_box_samples <= dataset.series_spec()->Some_0.0.len(),
        validated(dataset, q, last_frequency) is Ok ==> Some(
            validated(dataset, q, last_frequency)->Ok_0,
        ) == dataset.series_spec(),
        checked_grid(dataset, q) is Ok ==> Some(checked_grid(dataset, q)->Ok_0)
            == dataset.series_spec(),
{
}

/// Every error tells a defect of the inputs that is there, where none is that is
/// looked for earlier.
pub proof fn box_input_errors_tell_a_defect(
    dataset: Dataset,
    q: BoxPeriodParameters,
    last_frequency: Bits32,
)
    ensures
        validated(dataset, q, last_frequency) matches Err(error) ==> match error {
            BoxPeriodError::InvalidSeries => dataset.series_spec() is None
                || dataset.series_spec()->Some_0.0.len() == 0
                || dataset.series_spec()->Some_0.0.len() != dataset.series_spec()->Some_0.1.len(),
            BoxPeriodError::NonFinite => !numbers_are_finite(dataset.series_spec()->Some_0.0)
                || !numbers_are_finite(dataset.series_spec()->Some_0.1),
            BoxPeriodError::InvalidFrequencyGrid => numbers_are_finite(
                dataset.series_spec()->Some_0.0,
            ) && numbers_are_finite(dataset.series_spec()->Some_0.1) && (q.frequency_count == 0
                || !q.start_frequency.finite_positive() || !q.frequency_step.finite_positive()
                || !last_frequency.finite_positive()),
            BoxPeriodError::InvalidPhaseBinCount => has_grid(dataset, q) && q.phase_bin_count < 2,
            BoxPeriodError::InvalidDurations => has_grid(dataset, q) && q.phase_bin_count >= 2
                && !durations_are_fractions(q.duration_fractions),
            BoxPeriodError::InvalidSampleGates => has_grid(dataset, q) && q.phase_bin_count >= 2
                && durations_are_fractions(q.duration_fractions) && (q.minimum_in_box_samples == 0
                || q.minimum_out_of_box_samples == 0 || q.minimum_in_box_samples
                + q.minimum_out_of_box_samples > dataset.series_spec()->Some_0.0.len()),
            BoxPeriodError::NoValidWindow => false,
        },
{
}

/// A sample whose raw bin is this lies in the window that begins at a bin: it is
/// fewer than `width` steps round the circle from there. Raw bins past the last
/// one count as the last one.
pub open spec fn lies_inside(raw: usize, first: int, width: int, bins: int) -> bool {
    ((if raw < bins {
        raw as int
    } else {
        bins - 1
    }) + bins - first) % bins < width
}

/// How many samples lie in a window.
pub open spec fn count_inside(raw_bins: Seq<usize>, first: int, width: int, bins: int) -> nat {
    raw_bins.filter(|raw: usize| lies_inside(raw, first, width, bins)).len()
}

proof fn samples_inside_are_counted(raw_bins: Seq<usize>, first: int, width: int, bins: int)
    requires
        2 <= bins,
        0 <= first < bins,
        0 <= width <= bins,
    ensures
        samples_inside(raw_bins, first, width, bins) == count_inside(raw_bins, first, width, bins),
        count_inside(raw_bins, first, width, bins) <= raw_bins.len(),
    decreases raw_bins.len(),
{
    reveal(Seq::filter);
    if raw_bins.len() > 0 {
        samples_inside_are_counted(raw_bins.drop_last(), first, width, bins);
        let bin = bin_of(raw_bins.last(), bins);
        assert(0 <= bin < bins);
        if bin >= first {
            assert((bin + bins - first) % bins == bin - first) by {
                vstd::arithmetic::div_mod::lemma_mod_add_multiples_vanish(bin - first, bins);
                vstd::arithmetic::div_mod::lemma_small_mod(
                    (bin - first) as nat,
                    bins as nat,
                );
            }
        } else {
            assert((bin + bins - first) % bins == bin + bins - first) by {
                vstd::arithmetic::div_mod::lemma_small_mod(
                    (bin + bins - first) as nat,
                    bins as nat,
                );
            }
        }
        assert(in_window(bin, first, width, bins) == lies_inside(
            raw_bins.last(),
            first,
            width,
            bins,
        ));
    }
}

/// `width` is the number of bins nearest to the raw width that makes neither
/// nothing nor the whole circle.
pub open spec fn nearest_width(width: int, raw_width: int, bins: int) -> bool {
    &&& 1 <= width < bins
    &&& forall|other: int|
        1 <= other < bins ==> #[trigger] distance(width, raw_width) <= #[trigger] distance(
            other,
            raw_width,
        )
}

pub open spec fn distance(a: int, b: int) -> int {
    if a < b {
        b - a
    } else {
        a - b
    }
}

/// A window counts the samples that lie fewer bins round the circle from its
/// first bin than it is wide; all others are outside. It is admitted where both
/// counts reach their minimum, and the bin that enters next is the first one past
/// it.
pub proof fn a_window_counts_the_samples_it_covers(
    q: BoxPeriodParameters,
    raw_bins: Seq<usize>,
    raw_width: usize,
    phase_bin: int,
)
    requires
        q.phase_bin_count >= 2,
        raw_bins.len() <= usize::MAX,
        0 <= phase_bin < q.phase_bin_count,
    ensures
        ({
            let bins = q.phase_bin_count as int;
            let window = window_at(q, raw_bins, raw_width, phase_bin);
            let width = window.duration_bins as int;
            &&& window.phase_bin == phase_bin
            &&& nearest_width(width, raw_width as int, bins)
            &&& window.in_box_samples == count_inside(raw_bins, phase_bin, width, bins)
            &&& window.in_box_samples + window.out_of_box_samples == raw_bins.len()
            &&& window.admitted <==> window.in_box_samples >= q.minimum_in_box_samples
                && window.out_of_box_samples >= q.minimum_out_of_box_samples
            &&& window.entering == (phase_bin + width) % bins
        }),
{
    let bins = q.phase_bin_count as int;
    let window = window_at(q, raw_bins, raw_width, phase_bin);
    let width = crate::box_period_search::width_of(raw_width, bins);
    assert(1 <= width < bins);
    assert forall|other: int| 1 <= other < bins implies #[trigger] distance(
        width,
        raw_width as int,
    ) <= #[trigger] distance(other, raw_width as int) by {}
    samples_inside_are_counted(raw_bins, phase_bin, width, bins);
    if phase_bin + width < bins {
        vstd::arithmetic::div_mod::lemma_small_mod((phase_bin + width) as nat, bins as nat);
    } else {
        vstd::arithmetic::div_mod::lemma_mod_add_multiples_vanish(
            phase_bin + width - bins,
            bins,
        );
        vstd::arithmetic::div_mod::lemma_small_mod(
            (phase_bin + width - bins) as nat,
            bins as nat,
        );
    }
}

/// The place of a window in the search comes before another: by frequency, then
/// by duration, then by phase.
pub open spec fn earlier(f: int, d: int, b: int, g: int, e: int, c: int) -> bool {
    f < g || f == g && (d < e || d == e && b < c)
}

/// Of two candidates the one with the greater score is kept, and of two with the
/// same score the one that comes earlier in the search. Nothing else is made of
/// them.
pub proof fn the_better_of_two_is_kept(one: Candidate, other: Candidate)
    ensures
        better(one, other) == one || better(one, other) == other,
        one.score.rank() > other.score.rank() ==> better(one, other) == one && better(other, one)
            == one,
        one.score.rank() == other.score.rank() && earlier(
            one.frequency_index as int,
            one.duration_index as int,
            one.phase_bin as int,
            other.frequency_index as int,
            other.duration_index as int,
            other.phase_bin as int,
        ) ==> better(one, other) == one && better(other, one) == one,
{
}

/// The window at this place counts: it was admitted and its score is a number.
pub open spec fn counts(windows: Seq<Vec<Window>>, scores: Seq<Vec<Bits32>>, d: int, b: int)
    -> bool {
    0 <= d < windows.len() && 0 <= b < windows[d]@.len() && windows[d]@[b].admitted
        && scores[d]@[b].finite()
}

/// The candidate is that of the window at this place.
pub open spec fn stands_for(
    c: Candidate,
    windows: Seq<Vec<Window>>,
    scores: Seq<Vec<Bits32>>,
    f: int,
    d: int,
    b: int,
) -> bool {
    &&& counts(windows, scores, d, b)
    &&& c.score == scores[d]@[b]
    &&& c.frequency_index == f
    &&& c.duration_index == d
    &&& c.phase_bin == windows[d]@[b].phase_bin
    &&& c.duration_bins == windows[d]@[b].duration_bins
    &&& c.in_box_samples == windows[d]@[b].in_box_samples
    &&& c.out_of_box_samples == windows[d]@[b].out_of_box_samples
}

/// The best window of a frequency counts, describes itself, has a score that no
/// other window that counts exceeds, and comes first among those with its score.
/// There is one wherever a window counts.
pub proof fn the_best_window_has_the_greatest_score(
    f: usize,
    windows: Seq<Vec<Window>>,
    scores: Seq<Vec<Bits32>>,
    best: Option<Candidate>,
)
    requires
        windows.len() <= usize::MAX,
        best_window(f, windows, scores, best),
    ensures
        best is None ==> forall|d: int, b: int| !#[trigger] counts(windows, scores, d, b),
        best matches Some(c) ==> {
            &&& exists|d: int, b: int| #[trigger] stands_for(c, windows, scores, f as int, d, b)
            &&& forall|d: int, b: int| #[trigger]
                counts(windows, scores, d, b) ==> scores[d]@[b].rank() <= c.score.rank() && (
                scores[d]@[b].rank() == c.score.rank() ==> !earlier(
                    f as int,
                    d,
                    windows[d]@[b].phase_bin as int,
                    f as int,
                    c.duration_index as int,
                    c.phase_bin as int,
                ))
        },
{
    assert forall|d: int, b: int| #[trigger] counts(windows, scores, d, b) implies eligible(
        windows,
        scores,
        d,
        b,
    ) by {}
    if let Some(c) = best {
        let (d, b) = choose|d: int, b: int| #[trigger]
            eligible(windows, scores, d, b) && c == candidate_at(f, windows, scores, d, b);
        assert(stands_for(c, windows, scores, f as int, d, b));
        assert forall|d: int, b: int| #[trigger] counts(windows, scores, d, b) implies scores[d]@[b]
            .rank() <= c.score.rank() && (scores[d]@[b].rank() == c.score.rank() ==> !earlier(
            f as int,
            d,
            windows[d]@[b].phase_bin as int,
            f as int,
            c.duration_index as int,
            c.phase_bin as int,
        )) by {
            assert(eligible(windows, scores, d, b));
            assert(!beats(candidate_at(f, windows, scores, d, b), c));
        }
    }
}

/// A result describes the winning window: the phase that it reports is the
/// fraction of the circle that its phase bin makes, the duration that of its
/// width, the frequency that of its index; everything else is the candidate's.
pub proof fn a_result_describes_its_window(
    q: BoxPeriodParameters,
    tables: BoxTables,
    c: Candidate,
)
    requires
        q.frequency_start_index + c.frequency_index <= usize::MAX,
    ensures
        ({
            let result = box_result(q, tables, c);
            &&& result.best_phase == tables.bin_fractions@[result.best_phase_bin as int]
            &&& result.best_phase_bin == c.phase_bin
            &&& result.best_duration_fraction == tables.bin_fractions@[c.duration_bins as int]
            &&& result.best_duration_index == c.duration_index
            &&& result.best_frequency == tables.frequencies@[result.best_frequency_index
                - q.frequency_start_index]
            &&& result.best_frequency_index == q.frequency_start_index + c.frequency_index
            &&& result.best_score == c.score
            &&& result.in_box_samples == c.in_box_samples
            &&& result.out_of_box_samples == c.out_of_box_samples
        }),
{
}

/// The result is what was counted and scored at this place of the search.
pub open spec fn found_at(
    q: BoxPeriodParameters,
    tables: BoxTables,
    raw_bins: Seq<usize>,
    raw_width: usize,
    score: Bits32,
    f: int,
    d: int,
    b: int,
    result: BoxPeriodResult,
) -> bool {
    let bins = q.phase_bin_count as int;
    exists|width: int| #[trigger]
        nearest_width(width, raw_width as int, bins) && {
            &&& result.best_frequency == tables.frequencies@[f]
            &&& result.best_frequency_index == q.frequency_start_index + f
            &&& result.best_duration_index == d
            &&& result.best_duration_fraction == tables.bin_fractions@[width]
            &&& result.best_phase_bin == b
            &&& result.best_phase == tables.bin_fractions@[b]
            &&& result.best_score == score
            &&& result.in_box_samples == count_inside(raw_bins, b, width, bins)
            &&& result.out_of_box_samples == raw_bins.len() - count_inside(
                raw_bins,
                b,
                width,
                bins,
            )
            &&& result.in_box_samples >= q.minimum_in_box_samples
            &&& result.out_of_box_samples >= q.minimum_out_of_box_samples
        }
}

/// The result of a search is a window of some frequency, duration and phase, with
/// what was counted and scored there. No window of any frequency that counts has
/// a greater score, and none with the same score comes earlier.
pub proof fn a_box_search_finds_the_best_window(
    q: BoxPeriodParameters,
    tables: BoxTables,
    raw_bins: Seq<Seq<usize>>,
    raw_widths: Seq<usize>,
    windows: Seq<Seq<Vec<Window>>>,
    scores: Seq<Seq<Vec<Bits32>>>,
    candidates: Seq<Option<Candidate>>,
    c: Candidate,
)
    requires
        q.phase_bin_count >= 2,
        candidates.len() == q.frequency_count,
        raw_bins.len() == candidates.len(),
        windows.len() == candidates.len(),
        scores.len() == candidates.len(),
        raw_widths.len() <= usize::MAX,
        q.frequency_start_index + q.frequency_count <= usize::MAX,
        forall|f: int|
            0 <= f < candidates.len() ==> raw_bins[f].len() <= usize::MAX && windows_match(
                q,
                raw_bins[f],
                raw_widths,
                #[trigger] windows[f],
            ) && best_window(f as usize, windows[f], scores[f], candidates[f]),
        unbeaten(candidates, c),
    ensures
        exists|f: int, d: int, b: int|
            #![trigger windows[f][d]@[b]]
            0 <= f < candidates.len() && 0 <= d < raw_widths.len() && 0 <= b < q.phase_bin_count
                && counts(windows[f], scores[f], d, b) && found_at(
                q,
                tables,
                raw_bins[f],
                raw_widths[d],
                scores[f][d]@[b],
                f,
                d,
                b,
                box_result(q, tables, c),
            ) && forall|g: int, e: int, a: int|
                0 <= g < candidates.len() && #[trigger] counts(windows[g], scores[g], e, a) ==> (
                scores[g][e]@[a].rank() < scores[f][d]@[b].rank() || scores[g][e]@[a].rank()
                    == scores[f][d]@[b].rank() && !earlier(g, e, a, f, d, b)),
{
    let at = choose|i: int| 0 <= i < candidates.len() && candidates[i] == Some(c);
    assert(candidates[at] == Some(c));
    assert(windows_match(q, raw_bins[at], raw_widths, windows[at]));
    the_best_window_has_the_greatest_score(at as usize, windows[at], scores[at], candidates[at]);
    let (d, b) = choose|d: int, b: int| #[trigger]
        stands_for(c, windows[at], scores[at], at, d, b);
    assert(windows[at][d]@.len() == q.phase_bin_count);
    assert(windows[at][d]@[b] == window_at(q, raw_bins[at], raw_widths[d], b));
    a_window_counts_the_samples_it_covers(q, raw_bins[at], raw_widths[d], b);
    let width = windows[at][d]@[b].duration_bins as int;
    assert(nearest_width(width, raw_widths[d] as int, q.phase_bin_count as int));
    a_result_describes_its_window(q, tables, c);
    assert(found_at(
        q,
        tables,
        raw_bins[at],
        raw_widths[d],
        scores[at][d]@[b],
        at,
        d,
        b,
        box_result(q, tables, c),
    ));
    assert forall|g: int, e: int, a: int|
        0 <= g < candidates.len() && #[trigger] counts(windows[g], scores[g], e, a) implies (
    scores[g][e]@[a].rank() < scores[at][d]@[b].rank() || scores[g][e]@[a].rank()
        == scores[at][d]@[b].rank() && !earlier(g, e, a, at, d, b)) by {
        assert(windows_match(q, raw_bins[g], raw_widths, windows[g]));
        assert(windows[g][e]@.len() == q.phase_bin_count);
        assert(windows[g][e]@[a] == window_at(q, raw_bins[g], raw_widths[e], a));
        the_best_window_has_the_greatest_score(g as usize, windows[g], scores[g], candidates[g]);
        assert(candidates[g] is Some);
        let other = candidates[g]->Some_0;
        assert(!beats(other, c));
        let (h, k) = choose|h: int, k: int| #[trigger]
            stands_for(other, windows[g], scores[g], g, h, k);
        assert(other.frequency_index == g);
    }
    assert(counts(windows[at], scores[at], d, b));
    let witness = windows[at][d]@[b];
}

/// The winner of all frequencies is one of the candidates, and no candidate has a
/// greater score or, with the same score, comes earlier.
pub proof fn an_unbeaten_candidate_leads(
    candidates: Seq<Option<Candidate>>,
    c: Candidate,
    i: int,
)
    requires
        in_frequency_order(candidates),
        unbeaten(candidates, c),
        0 <= i < candidates.len(),
        candidates[i] is Some,
    ensures
        candidates.contains(Some(c)),
        candidates[i]->Some_0.score.rank() <= c.score.rank(),
        candidates[i]->Some_0.score.rank() == c.score.rank() ==> c.frequency_index <= i,
{
    let j = choose|j: int| 0 <= j < candidates.len() && candidates[j] == Some(c);
    assert(candidates[j] == Some(c));
}

proof fn a_bin_counts_its_samples(raw: Seq<usize>, sampled: Seq<usize>, bin: int, bins: int)
    requires
        bins >= 1,
        0 <= bin < bins,
        bins_match(raw, bins, sampled),
    ensures
        samples_inside(raw, bin, 1, bins) == sampled.filter(|other: usize| other == bin).len(),
    decreases raw.len(),
{
    reveal(Seq::filter);
    if raw.len() > 0 {
        assert(sampled.last() == bin_of(raw.last(), bins));
        a_bin_counts_its_samples(raw.drop_last(), sampled.drop_last(), bin, bins);
    }
}

/// Every sample is put into the bin of its number, or into the last one where its
/// number is past it; and a bin counts the samples that were put into it.
pub proof fn samples_are_counted_where_they_are_put(
    raw_bins: &[usize],
    bins: usize,
    sampled: Vec<usize>,
    counts: Vec<usize>,
    i: int,
    bin: int,
)
    requires
        bins >= 1,
        call_ensures(sample_bins, (raw_bins, bins), sampled),
        call_ensures(bin_counts, (raw_bins, bins), counts),
        0 <= i < raw_bins@.len(),
        0 <= bin < bins,
    ensures
        sampled@.len() == raw_bins@.len(),
        counts@.len() == bins,
        raw_bins@[i] < bins ==> sampled@[i] == raw_bins@[i],
        raw_bins@[i] >= bins ==> sampled@[i] + 1 == bins,
        counts@[bin] == sampled@.filter(|other: usize| other == bin).len(),
{
    assert(bins_match(raw_bins@, bins as int, sampled@));
    assert(sampled@[i] == bin_of(raw_bins@[i], bins as int));
    a_bin_counts_its_samples(raw_bins@, sampled@, bin, bins as int);
    assert(counts@[bin] == samples_inside(raw_bins@, bin, 1, bins as int));
}

} // verus!
