//! The Lomb-Scargle kernel: input checks, the choice of the winner, and the
//! refinement of a winner that a GPU found.
//!
//! The trigonometric sums are evaluated outside; they come in as
//! [`GridPoint`]s, one for each trial frequency.

use crate::float_bits::Bits32;
use crate::protocol::{Dataset, LombPayload, LombResult};
use std::ops::RangeInclusive;
use vstd::prelude::*;

verus! {

/// How many bins on either side of a GPU winner are evaluated again.
pub const VULKAN_CPU_REFINE_RADIUS_BINS: usize = 128;

#[derive(Clone, Copy, Debug, PartialEq, Eq, Structural)]
pub enum ComputeError {
    InvalidSeries,
    NonFinite,
    InvalidCount,
    InvalidFrequency,
    InvalidNormalization,
    InvalidResult,
}

impl ComputeError {
    pub open spec fn message_spec(self) -> Seq<char> {
        match self {
            ComputeError::InvalidSeries =>
                "dataset must contain matching, nonempty coordinate and value arrays"@,
            ComputeError::NonFinite => "input contains a non-finite number"@,
            ComputeError::InvalidCount => "frequency count must be positive"@,
            ComputeError::InvalidFrequency => "all frequencies must be finite and positive"@,
            ComputeError::InvalidNormalization =>
                "value-squared normalization must be finite and positive"@,
            ComputeError::InvalidResult => "Lomb-Scargle denominator or result is invalid"@,
        }
    }

    pub fn message(self) -> (r: &'static str)
        ensures
            r@ == self.message_spec(),
    {
        match self {
            ComputeError::InvalidSeries => {
                "dataset must contain matching, nonempty coordinate and value arrays"
            },
            ComputeError::NonFinite => "input contains a non-finite number",
            ComputeError::InvalidCount => "frequency count must be positive",
            ComputeError::InvalidFrequency => "all frequencies must be finite and positive",
            ComputeError::InvalidNormalization => {
                "value-squared normalization must be finite and positive"
            },
            ComputeError::InvalidResult => "Lomb-Scargle denominator or result is invalid",
        }
    }
}

/// What was computed for one trial frequency.
#[derive(Clone, Copy, Debug, PartialEq, Eq, Structural)]
pub struct GridPoint {
    pub frequency: Bits32,
    /// The reciprocal of the frequency.
    pub period_days: Bits32,
    pub sum_cos_squared: Bits32,
    pub sum_sin_squared: Bits32,
    /// The normalized power that follows from the sums.
    pub power: Bits32,
}

/// What was computed from a series and its payload as a whole.
#[derive(Clone, Copy, Debug, PartialEq, Eq, Structural)]
pub struct Derived {
    /// The sum of the squared values.
    pub normalization: Bits32,
    /// The highest frequency of the grid.
    pub last_frequency: Bits32,
}

/// A winning frequency within its chunk.
#[derive(Clone, Copy, Debug, PartialEq, Eq, Structural)]
pub struct Winner {
    /// The index within the chunk.
    pub index: usize,
    pub power: Bits32,
    /// The index within the whole search.
    pub frequency_index: usize,
}

pub open spec fn all_finite(numbers: Seq<Bits32>) -> bool {
    forall|i: int| 0 <= i < numbers.len() ==> (#[trigger] numbers[i]).finite()
}

pub fn are_all_finite(numbers: &[Bits32]) -> (r: bool)
    ensures
        r == all_finite(numbers@),
{
    let mut i: usize = 0;
    while i < numbers.len()
        invariant
            i <= numbers@.len(),
            forall|k: int| 0 <= k < i ==> (#[trigger] numbers@[k]).finite(),
        decreases numbers.len() - i,
    {
        if !numbers[i].is_finite() {
            return false;
        }
        i += 1;
    }
    true
}

/// A usable series: present, nonempty and of one length, with finite numbers.
pub open spec fn usable_series(dataset: Dataset) -> Result<
    (Seq<Bits32>, Seq<Bits32>),
    ComputeError,
> {
    match dataset.series_spec() {
        None => Err(ComputeError::InvalidSeries),
        Some((x, y)) => if x.len() == 0 || x.len() != y.len() {
            Err(ComputeError::InvalidSeries)
        } else if !all_finite(x) || !all_finite(y) {
            Err(ComputeError::NonFinite)
        } else {
            Ok((x, y))
        },
    }
}

/// What can be said of the inputs before anything is computed from them.
pub open spec fn checked_inputs(dataset: Dataset, p: LombPayload) -> Result<
    (Seq<Bits32>, Seq<Bits32>),
    ComputeError,
> {
    match usable_series(dataset) {
        Err(error) => Err(error),
        Ok(series) => if p.frequency_count == 0 {
            Err(ComputeError::InvalidCount)
        } else if !p.start_frequency.finite_positive() || !p.frequency_step.finite_positive() {
            Err(ComputeError::InvalidFrequency)
        } else {
            Ok(series)
        },
    }
}

/// What the derived numbers must satisfy before the grid is evaluated.
pub open spec fn checked_derived(derived: Derived) -> Result<(), ComputeError> {
    if !derived.normalization.finite_positive() {
        Err(ComputeError::InvalidNormalization)
    } else if !derived.last_frequency.finite_positive() {
        Err(ComputeError::InvalidFrequency)
    } else {
        Ok(())
    }
}

/// Whether a series can be searched with a payload.
pub open spec fn validated(dataset: Dataset, p: LombPayload, derived: Derived) -> Result<
    (Seq<Bits32>, Seq<Bits32>),
    ComputeError,
> {
    match checked_inputs(dataset, p) {
        Err(error) => Err(error),
        Ok(series) => match checked_derived(derived) {
            Err(error) => Err(error),
            Ok(()) => Ok(series),
        },
    }
}

pub open spec fn series_outcome(
    r: Result<(&[Bits32], &[Bits32]), ComputeError>,
) -> Result<(Seq<Bits32>, Seq<Bits32>), ComputeError> {
    match r {
        Ok((x, y)) => Ok((x@, y@)),
        Err(error) => Err(error),
    }
}

pub fn check_inputs<'a>(dataset: &'a Dataset, p: &LombPayload) -> (r: Result<
    (&'a [Bits32], &'a [Bits32]),
    ComputeError,
>)
    ensures
        series_outcome(r) == checked_inputs(*dataset, *p),
{
    let (x, y) = match dataset.series() {
        Some(series) => series,
        None => {
            return Err(ComputeError::InvalidSeries);
        },
    };
    if x.len() == 0 || x.len() != y.len() {
        return Err(ComputeError::InvalidSeries);
    }
    if !are_all_finite(x) || !are_all_finite(y) {
        return Err(ComputeError::NonFinite);
    }
    if p.frequency_count == 0 {
        return Err(ComputeError::InvalidCount);
    }
    if !p.start_frequency.is_finite_positive() || !p.frequency_step.is_finite_positive() {
        return Err(ComputeError::InvalidFrequency);
    }
    Ok((x, y))
}

pub fn check_derived(derived: &Derived) -> (r: Result<(), ComputeError>)
    ensures
        r == checked_derived(*derived),
{
    if !derived.normalization.is_finite_positive() {
        return Err(ComputeError::InvalidNormalization);
    }
    if !derived.last_frequency.is_finite_positive() {
        return Err(ComputeError::InvalidFrequency);
    }
    Ok(())
}

pub fn validate<'a>(dataset: &'a Dataset, p: &LombPayload, derived: &Derived) -> (r: Result<
    (&'a [Bits32], &'a [Bits32]),
    ComputeError,
>)
    ensures
        series_outcome(r) == validated(*dataset, *p, *derived),
{
    let series = match check_inputs(dataset, p) {
        Ok(series) => series,
        Err(error) => {
            return Err(error);
        },
    };
    match check_derived(derived) {
        Ok(()) => Ok(series),
        Err(error) => Err(error),
    }
}

/// The power at a point: the sums must be finite and positive, and the power
/// finite.
pub open spec fn power_spec(point: GridPoint) -> Result<Bits32, ComputeError> {
    if point.sum_cos_squared.finite_positive() && point.sum_sin_squared.finite_positive()
        && point.power.finite() {
        Ok(point.power)
    } else {
        Err(ComputeError::InvalidResult)
    }
}

pub fn power(point: &GridPoint) -> (r: Result<Bits32, ComputeError>)
    ensures
        r == power_spec(*point),
{
    if !point.sum_cos_squared.is_finite_positive() || !point.sum_sin_squared.is_finite_positive() {
        return Err(ComputeError::InvalidResult);
    }
    if !point.power.is_finite() {
        return Err(ComputeError::InvalidResult);
    }
    Ok(point.power)
}

/// The power at a point of a full search, which also looks at the frequency.
pub open spec fn searched_power(point: GridPoint) -> Result<Bits32, ComputeError> {
    if !point.frequency.finite_positive() {
        Err(ComputeError::InvalidFrequency)
    } else {
        power_spec(point)
    }
}

/// The powers of a grid, or the error of its first bad point.
pub open spec fn searched_powers(points: Seq<GridPoint>) -> Result<Seq<Bits32>, ComputeError>
    decreases points.len(),
{
    if points.len() == 0 {
        Ok(Seq::empty())
    } else {
        match searched_powers(points.drop_last()) {
            Err(error) => Err(error),
            Ok(powers) => match searched_power(points.last()) {
                Err(error) => Err(error),
                Ok(power) => Ok(powers.push(power)),
            },
        }
    }
}

/// The powers of a neighbourhood with their indices, which count up from
/// `start`, or the error of its first bad point.
pub open spec fn indexed_powers(points: Seq<GridPoint>, start: int) -> Result<
    Seq<(usize, Bits32)>,
    ComputeError,
>
    decreases points.len(),
{
    if points.len() == 0 {
        Ok(Seq::empty())
    } else {
        match indexed_powers(points.drop_last(), start) {
            Err(error) => Err(error),
            Ok(powers) => match power_spec(points.last()) {
                Err(error) => Err(error),
                Ok(power) => Ok(powers.push(((start + points.len() - 1) as usize, power))),
            },
        }
    }
}

/// `w` is the lowest index of the greatest power.
pub open spec fn strongest(powers: Seq<Bits32>, w: int) -> bool {
    &&& 0 <= w < powers.len()
    &&& forall|i: int| 0 <= i < powers.len() ==> (#[trigger] powers[i]).rank() <= powers[w].rank()
    &&& forall|i: int| 0 <= i < w ==> (#[trigger] powers[i]).rank() < powers[w].rank()
}

/// The lowest index of the greatest power.
pub open spec fn strongest_index(powers: Seq<Bits32>) -> int {
    choose|w: int| strongest(powers, w)
}

/// Every nonempty sequence of powers has exactly one strongest index.
pub proof fn strongest_is_unique(powers: Seq<Bits32>)
    requires
        powers.len() > 0,
    ensures
        strongest(powers, strongest_index(powers)),
        forall|w: int| #[trigger] strongest(powers, w) ==> w == strongest_index(powers),
    decreases powers.len(),
{
    if powers.len() == 1 {
        assert(strongest(powers, 0));
    } else {
        let shorter = powers.drop_last();
        strongest_is_unique(shorter);
        let w = strongest_index(shorter);
        let last = powers.len() - 1;
        if powers[last].rank() > powers[w].rank() {
            assert forall|i: int| 0 <= i < powers.len() implies (#[trigger] powers[i]).rank()
                <= powers[last].rank() by {
                if i < last {
                    assert(shorter[i].rank() <= shorter[w].rank());
                }
            }
            assert forall|i: int| 0 <= i < last implies (#[trigger] powers[i]).rank()
                < powers[last].rank() by {
                assert(shorter[i].rank() <= shorter[w].rank());
            }
            assert(strongest(powers, last));
        } else {
            assert forall|i: int| 0 <= i < powers.len() implies (#[trigger] powers[i]).rank()
                <= powers[w].rank() by {
                if i < last {
                    assert(shorter[i].rank() <= shorter[w].rank());
                }
            }
            assert forall|i: int| 0 <= i < w implies (#[trigger] powers[i]).rank()
                < powers[w].rank() by {
                assert(shorter[i].rank() < shorter[w].rank());
            }
            assert(strongest(powers, w));
        }
    }
    let v = strongest_index(powers);
    assert(strongest(powers, v));
    assert forall|w: int| #[trigger] strongest(powers, w) implies w == v by {
        if w < v {
            assert(powers[w].rank() < powers[v].rank());
        } else if v < w {
            assert(powers[v].rank() < powers[w].rank());
        }
    }
}

pub open spec fn powers_of(powers: Seq<(usize, Bits32)>) -> Seq<Bits32> {
    Seq::new(powers.len(), |i: int| powers[i].1)
}

/// The winner among indexed powers: all must be finite, there must be one, and
/// its index within the whole search must be representable.
pub open spec fn indexed_winner(p: LombPayload, powers: Seq<(usize, Bits32)>) -> Result<
    Winner,
    ComputeError,
> {
    if !all_finite(powers_of(powers)) {
        Err(ComputeError::InvalidResult)
    } else if powers.len() == 0 {
        Err(ComputeError::InvalidCount)
    } else {
        let (index, power) = powers[strongest_index(powers_of(powers))];
        if p.frequency_start_index + index > usize::MAX {
            Err(ComputeError::InvalidResult)
        } else {
            Ok(
                Winner {
                    index,
                    power,
                    frequency_index: (p.frequency_start_index + index) as usize,
                },
            )
        }
    }
}

pub open spec fn enumerated(powers: Seq<Bits32>) -> Seq<(usize, Bits32)> {
    Seq::new(powers.len(), |i: int| (i as usize, powers[i]))
}

/// The winner of a whole chunk, which must have a power for every frequency.
pub open spec fn chunk_winner(p: LombPayload, powers: Seq<Bits32>) -> Result<
    Winner,
    ComputeError,
> {
    if powers.len() != p.frequency_count {
        Err(ComputeError::InvalidCount)
    } else {
        indexed_winner(p, enumerated(powers))
    }
}

/// The strongest of indexed powers; the earliest wins an exact tie.
pub fn select_indexed_winner(p: &LombPayload, powers: &[(usize, Bits32)]) -> (r: Result<
    Winner,
    ComputeError,
>)
    ensures
        r == indexed_winner(*p, powers@),
{
    let ghost plain = powers_of(powers@);
    let mut best: usize = 0;
    let mut i: usize = 0;
    while i < powers.len()
        invariant
            i <= powers@.len(),
            plain == powers_of(powers@),
            forall|k: int| 0 <= k < i ==> (#[trigger] plain[k]).finite(),
            i == 0 ==> best == 0,
            i > 0 ==> best < i,
            forall|k: int| 0 <= k < i ==> (#[trigger] plain[k]).rank() <= plain[best as int].rank(),
            forall|k: int| 0 <= k < best ==> (#[trigger] plain[k]).rank() < plain[best as int].rank(),
        decreases powers.len() - i,
    {
        assert(plain[i as int] == powers@[i as int].1);
        if !powers[i].1.is_finite() {
            assert(!all_finite(plain));
            return Err(ComputeError::InvalidResult);
        }
        if powers[i].1.exceeds(powers[best].1) {
            best = i;
        }
        i += 1;
    }
    if powers.len() == 0 {
        return Err(ComputeError::InvalidCount);
    }
    proof {
        assert(strongest(plain, best as int));
        strongest_is_unique(plain);
    }
    let (index, power): (usize, Bits32) = powers[best];
    match p.frequency_start_index.checked_add(index) {
        Some(frequency_index) => Ok(Winner { index, power, frequency_index }),
        None => Err(ComputeError::InvalidResult),
    }
}

/// The strongest power of a chunk; the lowest index wins an exact tie.
pub fn select_winner(p: &LombPayload, powers: &[Bits32]) -> (r: Result<Winner, ComputeError>)
    ensures
        r == chunk_winner(*p, powers@),
{
    if powers.len() != p.frequency_count {
        return Err(ComputeError::InvalidCount);
    }
    let mut indexed: Vec<(usize, Bits32)> = Vec::new();
    let mut i: usize = 0;
    while i < powers.len()
        invariant
            i <= powers@.len(),
            indexed@.len() == i,
            forall|k: int| 0 <= k < i ==> #[trigger] indexed@[k] == (k as usize, powers@[k]),
        decreases powers.len() - i,
    {
        indexed.push((i, powers[i]));
        i += 1;
    }
    assert(indexed@ =~= enumerated(powers@));
    select_indexed_winner(p, indexed.as_slice())
}

/// The result that a winner stands for.
pub open spec fn result_at(winner: Winner, point: GridPoint) -> LombResult {
    LombResult {
        best_frequency: point.frequency,
        best_period_days: point.period_days,
        best_power: winner.power,
        best_frequency_index: winner.frequency_index,
    }
}

/// The outcome of a full search over an evaluated grid.
pub open spec fn executed(
    dataset: Dataset,
    p: LombPayload,
    derived: Derived,
    points: Seq<GridPoint>,
) -> Result<LombResult, ComputeError> {
    match validated(dataset, p, derived) {
        Err(error) => Err(error),
        Ok(_) => match searched_powers(points) {
            Err(error) => Err(error),
            Ok(powers) => match chunk_winner(p, powers) {
                Err(error) => Err(error),
                Ok(winner) => Ok(result_at(winner, points[winner.index as int])),
            },
        },
    }
}

/// A search that succeeds has a power for every point.
pub proof fn searched_powers_len(points: Seq<GridPoint>)
    ensures
        searched_powers(points) matches Ok(powers) ==> powers.len() == points.len() && forall|
            i: int,
        |
            0 <= i < points.len() ==> searched_power(points[i]) == Ok::<Bits32, ComputeError>(
                #[trigger] powers[i],
            ),
    decreases points.len(),
{
    if points.len() > 0 {
        searched_powers_len(points.drop_last());
        if let Ok(powers) = searched_powers(points) {
            let shorter = searched_powers(points.drop_last())->Ok_0;
            assert forall|i: int| 0 <= i < points.len() implies searched_power(points[i]) == Ok::<
                Bits32,
                ComputeError,
            >(#[trigger] powers[i]) by {
                if i < points.len() - 1 {
                    assert(powers[i] == shorter[i]);
                    assert(points.drop_last()[i] == points[i]);
                }
            }
        }
    }
}

/// Runs a full search over an evaluated grid.
pub fn execute(
    dataset: &Dataset,
    p: &LombPayload,
    derived: &Derived,
    points: &[GridPoint],
) -> (r: Result<LombResult, ComputeError>)
    ensures
        r == executed(*dataset, *p, *derived, points@),
{
    match validate(dataset, p, derived) {
        Ok(_) => {},
        Err(error) => {
            return Err(error);
        },
    }
    let mut powers: Vec<Bits32> = Vec::new();
    let mut i: usize = 0;
    while i < points.len()
        invariant
            i <= points@.len(),
            validated(*dataset, *p, *derived) is Ok,
            searched_powers(points@.take(i as int)) == Ok::<Seq<Bits32>, ComputeError>(powers@),
        decreases points.len() - i,
    {
        assert(points@.take(i + 1).drop_last() =~= points@.take(i as int));
        assert(points@.take(i + 1).last() == points@[i as int]);
        if !points[i].frequency.is_finite_positive() {
            proof {
                failure_in_prefix(points@, i + 1);
            }
            return Err(ComputeError::InvalidFrequency);
        }
        match power(&points[i]) {
            Ok(power) => powers.push(power),
            Err(error) => {
                proof {
                    failure_in_prefix(points@, i + 1);
                }
                return Err(error);
            },
        }
        i += 1;
    }
    assert(points@.take(i as int) =~= points@);
    match select_winner(p, powers.as_slice()) {
        Ok(winner) => {
            proof {
                searched_powers_len(points@);
                strongest_is_unique(powers_of(enumerated(powers@)));
            }
            let point: GridPoint = points[winner.index];
            Ok(
                LombResult {
                    best_frequency: point.frequency,
                    best_period_days: point.period_days,
                    best_power: winner.power,
                    best_frequency_index: winner.frequency_index,
                },
            )
        },
        Err(error) => Err(error),
    }
}

/// The first failure of a prefix is the first failure of the whole grid.
proof fn failure_in_prefix(points: Seq<GridPoint>, n: int)
    requires
        0 <= n <= points.len(),
        searched_powers(points.take(n)) is Err,
    ensures
        searched_powers(points) == searched_powers(points.take(n)),
    decreases points.len() - n,
{
    if n == points.len() {
        assert(points.take(n) =~= points);
    } else {
        assert(points.take(n + 1).drop_last() =~= points.take(n));
        failure_in_prefix(points, n + 1);
    }
}

/// The bounds of the neighbourhood of a winner: the radius on both sides, cut
/// off at the ends of the chunk.
pub open spec fn refinement_bounds_spec(frequency_count: int, winner: int) -> (int, int) {
    (
        if winner < VULKAN_CPU_REFINE_RADIUS_BINS {
            0
        } else {
            winner - VULKAN_CPU_REFINE_RADIUS_BINS
        },
        if winner + VULKAN_CPU_REFINE_RADIUS_BINS < frequency_count {
            winner + VULKAN_CPU_REFINE_RADIUS_BINS
        } else {
            frequency_count - 1
        },
    )
}

pub fn refinement_bounds(frequency_count: usize, winner: usize) -> (r: Result<
    (usize, usize),
    ComputeError,
>)
    ensures
        match r {
            Ok((start, end)) => winner < frequency_count && (start as int, end as int)
                == refinement_bounds_spec(frequency_count as int, winner as int),
            Err(error) => winner >= frequency_count && error == ComputeError::InvalidCount,
        },
{
    if frequency_count == 0 || winner >= frequency_count {
        return Err(ComputeError::InvalidCount);
    }
    let start: usize = winner.saturating_sub(VULKAN_CPU_REFINE_RADIUS_BINS);
    let reach: usize = winner.saturating_add(VULKAN_CPU_REFINE_RADIUS_BINS);
    let end: usize = if reach < frequency_count - 1 { reach } else { frequency_count - 1 };
    Ok((start, end))
}

/// The indices around a winner that are evaluated again.
pub fn refinement_range(frequency_count: usize, winner: usize) -> (r: Result<
    RangeInclusive<usize>,
    ComputeError,
>)
    ensures
        match r {
            Ok(range) => winner < frequency_count && (range@.start as int, range@.end as int)
                == refinement_bounds_spec(frequency_count as int, winner as int)
                && !range@.exhausted,
            Err(error) => winner >= frequency_count && error == ComputeError::InvalidCount,
        },
{
    match refinement_bounds(frequency_count, winner) {
        Ok((start, end)) => Ok(RangeInclusive::new(start, end)),
        Err(error) => Err(error),
    }
}

/// A neighbourhood lies within its chunk, holds its winner, and has at most
/// two radii and one bins.
pub proof fn refinement_is_a_bounded_neighbourhood(frequency_count: int, winner: int)
    requires
        0 <= winner < frequency_count,
    ensures
        ({
            let (start, end) = refinement_bounds_spec(frequency_count, winner);
            &&& 0 <= start <= winner <= end < frequency_count
            &&& end - start + 1 <= 2 * VULKAN_CPU_REFINE_RADIUS_BINS + 1
        }),
{
}

/// The outcome of the second evaluation around a winner.
pub open spec fn refined(
    dataset: Dataset,
    p: LombPayload,
    derived: Derived,
    winner: int,
    points: Seq<GridPoint>,
) -> Result<LombResult, ComputeError> {
    match validated(dataset, p, derived) {
        Err(error) => Err(error),
        Ok(_) => if winner >= p.frequency_count {
            Err(ComputeError::InvalidCount)
        } else {
            let start = refinement_bounds_spec(p.frequency_count as int, winner).0;
            match indexed_powers(points, start) {
                Err(error) => Err(error),
                Ok(powers) => match indexed_winner(p, powers) {
                    Err(error) => Err(error),
                    Ok(best) => Ok(result_at(best, points[best.index - start])),
                },
            }
        },
    }
}

/// Chooses anew within the neighbourhood of a winner, whose points were
/// evaluated with the authoritative scalar arithmetic.
pub fn refine_winner(
    dataset: &Dataset,
    p: &LombPayload,
    derived: &Derived,
    winner: usize,
    points: &[GridPoint],
) -> (r: Result<LombResult, ComputeError>)
    requires
        validated(*dataset, *p, *derived) is Ok && winner < p.frequency_count ==> ({
            let (start, end) = refinement_bounds_spec(p.frequency_count as int, winner as int);
            points@.len() == end - start + 1
        }),
    ensures
        r == refined(*dataset, *p, *derived, winner as int, points@),
{
    match validate(dataset, p, derived) {
        Ok(_) => {},
        Err(error) => {
            return Err(error);
        },
    }
    let start: usize = match refinement_bounds(p.frequency_count, winner) {
        Ok((start, _)) => start,
        Err(error) => {
            return Err(error);
        },
    };
    let mut powers: Vec<(usize, Bits32)> = Vec::new();
    let mut i: usize = 0;
    while i < points.len()
        invariant
            i <= points@.len(),
            start + points@.len() <= usize::MAX,
            indexed_powers(points@.take(i as int), start as int) == Ok::<
                Seq<(usize, Bits32)>,
                ComputeError,
            >(powers@),
            validated(*dataset, *p, *derived) is Ok,
            winner < p.frequency_count,
            start == refinement_bounds_spec(p.frequency_count as int, winner as int).0,
        decreases points.len() - i,
    {
        assert(points@.take(i + 1).drop_last() =~= points@.take(i as int));
        assert(points@.take(i + 1).last() == points@[i as int]);
        match power(&points[i]) {
            Ok(power) => powers.push((start + i, power)),
            Err(error) => {
                proof {
                    indexed_failure_in_prefix(points@, start as int, i + 1);
                }
                return Err(error);
            },
        }
        i += 1;
    }
    assert(points@.take(i as int) =~= points@);
    match select_indexed_winner(p, powers.as_slice()) {
        Ok(best) => {
            proof {
                indexed_powers_len(points@, start as int);
                strongest_is_unique(powers_of(powers@));
            }
            let point: GridPoint = points[best.index - start];
            Ok(
                LombResult {
                    best_frequency: point.frequency,
                    best_period_days: point.period_days,
                    best_power: best.power,
                    best_frequency_index: best.frequency_index,
                },
            )
        },
        Err(error) => Err(error),
    }
}

proof fn indexed_failure_in_prefix(points: Seq<GridPoint>, start: int, n: int)
    requires
        0 <= n <= points.len(),
        indexed_powers(points.take(n), start) is Err,
    ensures
        indexed_powers(points, start) == indexed_powers(points.take(n), start),
    decreases points.len() - n,
{
    if n == points.len() {
        assert(points.take(n) =~= points);
    } else {
        assert(points.take(n + 1).drop_last() =~= points.take(n));
        indexed_failure_in_prefix(points, start, n + 1);
    }
}

/// A neighbourhood without a bad point has a power for every point, and the
/// indices count up.
pub proof fn indexed_powers_len(points: Seq<GridPoint>, start: int)
    ensures
        indexed_powers(points, start) matches Ok(powers) ==> {
            &&& powers.len() == points.len()
            &&& forall|i: int|
                0 <= i < points.len() ==> (#[trigger] powers[i]).0 == (start + i) as usize
                    && power_spec(points[i]) == Ok::<Bits32, ComputeError>(powers[i].1)
        },
    decreases points.len(),
{
    if points.len() > 0 {
        indexed_powers_len(points.drop_last(), start);
        if let Ok(powers) = indexed_powers(points, start) {
            let shorter = indexed_powers(points.drop_last(), start)->Ok_0;
            assert forall|i: int| 0 <= i < points.len() implies (#[trigger] powers[i]).0 == (start
                + i) as usize && power_spec(points[i]) == Ok::<Bits32, ComputeError>(
                powers[i].1,
            ) by {
                if i < points.len() - 1 {
                    assert(powers[i] == shorter[i]);
                    assert(points.drop_last()[i] == points[i]);
                }
            }
        }
    }
}

/// A neighbourhood without a bad point has its powers.
pub proof fn good_points_have_indexed_powers(points: Seq<GridPoint>, start: int)
    requires
        forall|i: int| 0 <= i < points.len() ==> power_spec(#[trigger] points[i]) is Ok,
    ensures
        indexed_powers(points, start) is Ok,
    decreases points.len(),
{
    if points.len() > 0 {
        assert forall|i: int| 0 <= i < points.len() - 1 implies power_spec(
            #[trigger] points.drop_last()[i],
        ) is Ok by {
            assert(points.drop_last()[i] == points[i]);
        }
        good_points_have_indexed_powers(points.drop_last(), start);
        assert(power_spec(points.last()) is Ok);
    }
}

/// Refinement recovers the winner of the full search from any starting point
/// whose neighbourhood holds it: the two outcomes are the same.
pub proof fn refinement_recovers_the_winner(
    dataset: Dataset,
    p: LombPayload,
    derived: Derived,
    points: Seq<GridPoint>,
    start_from: int,
)
    requires
        executed(dataset, p, derived, points) is Ok,
        0 <= start_from < p.frequency_count,
        ({
            let (start, end) = refinement_bounds_spec(p.frequency_count as int, start_from);
            start <= strongest_index(searched_powers(points)->Ok_0) <= end
        }),
    ensures
        ({
            let (start, end) = refinement_bounds_spec(p.frequency_count as int, start_from);
            refined(dataset, p, derived, start_from, points.subrange(start, end + 1)) == executed(
                dataset,
                p,
                derived,
                points,
            )
        }),
{
    let (start, end) = refinement_bounds_spec(p.frequency_count as int, start_from);
    let powers = searched_powers(points)->Ok_0;
    searched_powers_len(points);
    assert(powers_of(enumerated(powers)) =~= powers);
    strongest_is_unique(powers);
    let w = strongest_index(powers);
    let near = points.subrange(start, end + 1);
    assert forall|i: int| 0 <= i < near.len() implies power_spec(#[trigger] near[i]) is Ok by {
        assert(near[i] == points[start + i]);
        assert(searched_power(points[start + i]) == Ok::<Bits32, ComputeError>(powers[start + i]));
    }
    good_points_have_indexed_powers(near, start);
    indexed_powers_len(near, start);
    let indexed = indexed_powers(near, start)->Ok_0;
    let plain = powers_of(indexed);
    assert forall|i: int| 0 <= i < plain.len() implies #[trigger] plain[i] == powers[start + i] by {
        assert(indexed[i].1 == plain[i]);
        assert(near[i] == points[start + i]);
        assert(searched_power(points[start + i]) == Ok::<Bits32, ComputeError>(powers[start + i]));
    }
    assert(all_finite(plain)) by {
        assert forall|i: int| 0 <= i < plain.len() implies (#[trigger] plain[i]).finite() by {
            assert(powers_of(enumerated(powers))[start + i].finite());
        }
    }
    assert(strongest(plain, w - start));
    strongest_is_unique(plain);
    assert(indexed[w - start].0 == w);
}

/// An exact tie goes to the lowest index.
pub proof fn ties_go_to_the_lowest_index(p: LombPayload, powers: Seq<Bits32>, i: int)
    requires
        chunk_winner(p, powers) is Ok,
        0 <= i < powers.len(),
        powers[i] == chunk_winner(p, powers)->Ok_0.power,
    ensures
        chunk_winner(p, powers)->Ok_0.index <= i,
{
    assert(powers_of(enumerated(powers)) =~= powers);
    strongest_is_unique(powers);
}

} // verus!
