//! What holds of every Lomb-Scargle search.

use crate::float_bits::Bits32;
use crate::kernel::{
    checked_inputs, chunk_winner, enumerated, executed, good_points_have_indexed_powers,
    indexed_powers, indexed_powers_len, indexed_winner, power_spec, powers_of, refined,
    refinement_bounds_spec, refinement_is_a_bounded_neighbourhood, searched_power, searched_powers,
    searched_powers_len, strongest_index, strongest_is_unique, validated, ComputeError, Derived,
    GridPoint,
};
use crate::protocol::{Dataset, LombPayload, LombResult};
use vstd::prelude::*;

verus! {

/// Every number of the series is finite.
pub open spec fn numbers_are_finite(numbers: Seq<Bits32>) -> bool {
    forall|i: int| 0 <= i < numbers.len() ==> (#[trigger] numbers[i]).finite()
}

/// The dataset has a nonempty series of finite numbers, as many values as
/// coordinates; and the payload asks for at least one frequency, on a grid that
/// begins and rises by finite positive numbers.
pub open spec fn searchable(dataset: Dataset, p: LombPayload) -> bool {
    dataset.series_spec() matches Some((x, y)) && 0 < x.len() == y.len() && numbers_are_finite(x)
        && numbers_are_finite(y) && p.frequency_count > 0 && p.start_frequency.finite_positive()
        && p.frequency_step.finite_positive()
}

/// Inputs are accepted exactly where they can be searched, and then the series
/// that is searched is the dataset's. Derived numbers must be finite and positive
/// besides.
pub proof fn searchable_inputs_are_accepted(dataset: Dataset, p: LombPayload, derived: Derived)
    ensures
        checked_inputs(dataset, p) is Ok <==> searchable(dataset, p),
        validated(dataset, p, derived) is Ok <==> searchable(dataset, p)
            && derived.normalization.finite_positive() && derived.last_frequency.finite_positive(),
        validated(dataset, p, derived) is Ok ==> Some(validated(dataset, p, derived)->Ok_0)
            == dataset.series_spec(),
        checked_inputs(dataset, p) is Ok ==> Some(checked_inputs(dataset, p)->Ok_0)
            == dataset.series_spec(),
{
}

/// Every error tells a defect of the inputs that is there, and of two defects
/// the one that is looked for first.
pub proof fn input_errors_tell_a_defect(dataset: Dataset, p: LombPayload, derived: Derived)
    ensures
        validated(dataset, p, derived) == Err::<(Seq<Bits32>, Seq<Bits32>), ComputeError>(
            ComputeError::InvalidSeries,
        ) <==> (dataset.series_spec() is None || dataset.series_spec()->Some_0.0.len() == 0
            || dataset.series_spec()->Some_0.0.len() != dataset.series_spec()->Some_0.1.len()),
        validated(dataset, p, derived) matches Err(error) ==> {
            &&& error is NonFinite ==> !numbers_are_finite(dataset.series_spec()->Some_0.0)
                || !numbers_are_finite(dataset.series_spec()->Some_0.1)
            &&& error is InvalidCount ==> p.frequency_count == 0 && numbers_are_finite(
                dataset.series_spec()->Some_0.0,
            ) && numbers_are_finite(dataset.series_spec()->Some_0.1)
            &&& error is InvalidFrequency ==> p.frequency_count > 0 && (
            !p.start_frequency.finite_positive() || !p.frequency_step.finite_positive() || (
            !derived.last_frequency.finite_positive() && derived.normalization.finite_positive()))
            &&& error is InvalidNormalization ==> !derived.normalization.finite_positive()
                && p.start_frequency.finite_positive() && p.frequency_step.finite_positive()
                && p.frequency_count > 0
            &&& !(error is InvalidResult)
        },
{
}

/// A point whose power counts.
pub open spec fn good_point(point: GridPoint) -> bool {
    &&& point.sum_cos_squared.finite_positive()
    &&& point.sum_sin_squared.finite_positive()
    &&& point.power.finite()
}

/// Point `w` is the first of those with the greatest power.
pub open spec fn leads(points: Seq<GridPoint>, w: int) -> bool {
    &&& 0 <= w < points.len()
    &&& forall|i: int|
        0 <= i < points.len() ==> (#[trigger] points[i]).power.rank() <= points[w].power.rank()
    &&& forall|i: int|
        0 <= i < w ==> (#[trigger] points[i]).power.rank() < points[w].power.rank()
}

/// The result is what was evaluated at a point, which has this index in the whole
/// search.
pub open spec fn reports_point(result: LombResult, point: GridPoint, index: int) -> bool {
    &&& result.best_frequency == point.frequency
    &&& result.best_period_days == point.period_days
    &&& result.best_power == point.power
    &&& result.best_frequency_index == index
}

/// A search that succeeds reports the first point with the greatest power, with
/// the frequency, the period and the power of that very point, and counts its
/// index from the start index. All points were good.
pub proof fn a_search_reports_the_leading_point(
    dataset: Dataset,
    p: LombPayload,
    derived: Derived,
    points: Seq<GridPoint>,
)
    requires
        executed(dataset, p, derived, points) is Ok,
    ensures
        points.len() == p.frequency_count,
        searchable(dataset, p),
        forall|i: int|
            0 <= i < points.len() ==> good_point(#[trigger] points[i])
                && points[i].frequency.finite_positive(),
        exists|w: int| #[trigger]
            leads(points, w) && reports_point(
                executed(dataset, p, derived, points)->Ok_0,
                points[w],
                p.frequency_start_index + w,
            ),
{
    let powers = searched_powers(points)->Ok_0;
    searched_powers_len(points);
    assert(powers_of(enumerated(powers)) =~= powers);
    strongest_is_unique(powers);
    let winner = chunk_winner(p, powers)->Ok_0;
    let w = winner.index as int;
    assert forall|i: int| 0 <= i < points.len() implies good_point(#[trigger] points[i])
        && points[i].frequency.finite_positive() && powers[i] == points[i].power by {
        assert(searched_power(points[i]) == Ok::<Bits32, ComputeError>(powers[i]));
    }
    assert forall|i: int| 0 <= i < points.len() implies (#[trigger] points[i]).power.rank()
        <= points[w].power.rank() by {
        assert(powers[i].rank() <= powers[w].rank());
    }
    assert forall|i: int| 0 <= i < w implies (#[trigger] points[i]).power.rank()
        < points[w].power.rank() by {
        assert(powers[i].rank() < powers[w].rank());
    }
    assert(leads(points, w));
    assert(reports_point(
        executed(dataset, p, derived, points)->Ok_0,
        points[w],
        p.frequency_start_index + w,
    ));
}

/// A search over good points of an accepted grid succeeds, unless the winner's
/// index cannot be represented.
pub proof fn a_good_grid_is_searched(
    dataset: Dataset,
    p: LombPayload,
    derived: Derived,
    points: Seq<GridPoint>,
)
    requires
        searchable(dataset, p),
        derived.normalization.finite_positive(),
        derived.last_frequency.finite_positive(),
        points.len() == p.frequency_count,
        forall|i: int|
            0 <= i < points.len() ==> good_point(#[trigger] points[i])
                && points[i].frequency.finite_positive(),
        p.frequency_start_index + p.frequency_count <= usize::MAX,
    ensures
        executed(dataset, p, derived, points) is Ok,
{
    searchable_inputs_are_accepted(dataset, p, derived);
    good_points_have_powers(points);
    searched_powers_len(points);
    let powers = searched_powers(points)->Ok_0;
    assert(powers_of(enumerated(powers)) =~= powers);
    strongest_is_unique(powers);
    assert forall|i: int| 0 <= i < powers.len() implies (#[trigger] powers_of(
        enumerated(powers),
    )[i]).finite() by {
        assert(searched_power(points[i]) == Ok::<Bits32, ComputeError>(powers[i]));
    }
}

proof fn good_points_have_powers(points: Seq<GridPoint>)
    requires
        forall|i: int|
            0 <= i < points.len() ==> good_point(#[trigger] points[i])
                && points[i].frequency.finite_positive(),
    ensures
        searched_powers(points) is Ok,
    decreases points.len(),
{
    if points.len() > 0 {
        let rest = points.drop_last();
        assert forall|i: int| 0 <= i < rest.len() implies good_point(#[trigger] rest[i])
            && rest[i].frequency.finite_positive() by {
            assert(rest[i] == points[i]);
        }
        good_points_have_powers(rest);
        assert(good_point(points[points.len() - 1]));
    }
}

/// A grid with a bad point is refused: for a frequency that is not finite and
/// positive, or for a sum or a power that does not count.
pub proof fn a_bad_point_is_refused(
    dataset: Dataset,
    p: LombPayload,
    derived: Derived,
    points: Seq<GridPoint>,
    i: int,
)
    requires
        validated(dataset, p, derived) is Ok,
        0 <= i < points.len(),
        !good_point(points[i]) || !points[i].frequency.finite_positive(),
        forall|k: int|
            0 <= k < i ==> good_point(#[trigger] points[k])
                && points[k].frequency.finite_positive(),
    ensures
        executed(dataset, p, derived, points) == Err::<LombResult, ComputeError>(
            if points[i].frequency.finite_positive() {
                ComputeError::InvalidResult
            } else {
                ComputeError::InvalidFrequency
            },
        ),
{
    the_first_bad_point_tells(points, i);
}

proof fn the_first_bad_point_tells(points: Seq<GridPoint>, i: int)
    requires
        0 <= i < points.len(),
        !good_point(points[i]) || !points[i].frequency.finite_positive(),
        forall|k: int|
            0 <= k < i ==> good_point(#[trigger] points[k])
                && points[k].frequency.finite_positive(),
    ensures
        searched_powers(points) == Err::<Seq<Bits32>, ComputeError>(
            if points[i].frequency.finite_positive() {
                ComputeError::InvalidResult
            } else {
                ComputeError::InvalidFrequency
            },
        ),
    decreases points.len(),
{
    let rest = points.drop_last();
    if i < rest.len() {
        assert forall|k: int| 0 <= k < i implies good_point(#[trigger] rest[k])
            && rest[k].frequency.finite_positive() by {
            assert(rest[k] == points[k]);
        }
        assert(rest[i] == points[i]);
        the_first_bad_point_tells(rest, i);
    } else {
        assert forall|k: int| 0 <= k < rest.len() implies good_point(#[trigger] rest[k])
            && rest[k].frequency.finite_positive() by {
            assert(rest[k] == points[k]);
        }
        good_points_have_powers(rest);
    }
}

/// An index belongs to the neighbourhood of a winner exactly where it lies in the
/// chunk and at most 128 bins away.
pub proof fn a_neighbourhood_holds_what_is_near(frequency_count: int, winner: int, k: int)
    requires
        0 <= winner < frequency_count,
    ensures
        ({
            let (start, end) = refinement_bounds_spec(frequency_count, winner);
            start <= k <= end <==> 0 <= k < frequency_count && winner - 128 <= k <= winner + 128
        }),
{
}

/// A refinement that succeeds reports the first point with the greatest power of
/// the neighbourhood, with what was evaluated at that very point.
pub proof fn a_refinement_reports_the_leading_point(
    dataset: Dataset,
    p: LombPayload,
    derived: Derived,
    winner: int,
    points: Seq<GridPoint>,
)
    requires
        0 <= winner,
        refined(dataset, p, derived, winner, points) is Ok,
        winner < p.frequency_count ==> ({
            let (start, end) = refinement_bounds_spec(p.frequency_count as int, winner);
            points.len() == end - start + 1
        }),
    ensures
        winner < p.frequency_count,
        searchable(dataset, p),
        exists|w: int| #[trigger]
            leads(points, w) && reports_point(
                refined(dataset, p, derived, winner, points)->Ok_0,
                points[w],
                p.frequency_start_index + refinement_bounds_spec(
                    p.frequency_count as int,
                    winner,
                ).0 + w,
            ),
{
    searchable_inputs_are_accepted(dataset, p, derived);
    refinement_is_a_bounded_neighbourhood(p.frequency_count as int, winner);
    let start = refinement_bounds_spec(p.frequency_count as int, winner).0;
    let indexed = indexed_powers(points, start)->Ok_0;
    indexed_powers_len(points, start);
    let plain = powers_of(indexed);
    strongest_is_unique(plain);
    let w = strongest_index(plain);
    assert forall|i: int| 0 <= i < points.len() implies plain[i] == (
    #[trigger] points[i]).power by {
        assert(indexed[i].1 == plain[i]);
        assert(power_spec(points[i]) == Ok::<Bits32, ComputeError>(indexed[i].1));
    }
    assert(indexed[w].0 == start + w);
    assert forall|i: int| 0 <= i < points.len() implies (#[trigger] points[i]).power.rank()
        <= points[w].power.rank() by {
        assert(plain[i].rank() <= plain[w].rank());
    }
    assert forall|i: int| 0 <= i < w implies (#[trigger] points[i]).power.rank()
        < points[w].power.rank() by {
        assert(plain[i].rank() < plain[w].rank());
    }
    assert(leads(points, w));
    assert(indexed_winner(p, indexed)->Ok_0.index == start + w);
    assert(reports_point(
        refined(dataset, p, derived, winner, points)->Ok_0,
        points[w],
        p.frequency_start_index + start + w,
    ));
}

/// The winner among powers is the first of the greatest, with its own power, and
/// its index counts from the start index. There is one unless a power is not
/// finite, their number is not that of the frequencies, or the index cannot be
/// represented.
pub proof fn the_first_of_the_greatest_powers_wins(p: LombPayload, powers: Seq<Bits32>)
    ensures
        chunk_winner(p, powers) matches Ok(winner) ==> {
            &&& powers.len() == p.frequency_count
            &&& winner.index < powers.len()
            &&& winner.power == powers[winner.index as int]
            &&& winner.frequency_index == p.frequency_start_index + winner.index
            &&& forall|i: int|
                0 <= i < powers.len() ==> (#[trigger] powers[i]).rank() <= winner.power.rank()
            &&& forall|i: int|
                0 <= i < winner.index ==> (#[trigger] powers[i]).rank() < winner.power.rank()
        },
        powers.len() == p.frequency_count && p.frequency_count > 0 && numbers_are_finite(powers)
            && p.frequency_start_index + p.frequency_count <= usize::MAX ==> chunk_winner(
            p,
            powers,
        ) is Ok,
        powers.len() != p.frequency_count ==> chunk_winner(p, powers) is Err && chunk_winner(
            p,
            powers,
        )->Err_0 is InvalidCount,
        powers.len() == p.frequency_count && !numbers_are_finite(powers) ==> chunk_winner(
            p,
            powers,
        ) is Err && chunk_winner(p, powers)->Err_0 is InvalidResult,
{
    assert(powers_of(enumerated(powers)) =~= powers);
    if powers.len() > 0 {
        strongest_is_unique(powers);
    }
}

/// A neighbourhood of good points is refined, unless the winner's index cannot be
/// represented; and a winner outside the chunk is refused.
pub proof fn a_good_neighbourhood_is_refined(
    dataset: Dataset,
    p: LombPayload,
    derived: Derived,
    winner: int,
    points: Seq<GridPoint>,
)
    requires
        searchable(dataset, p),
        derived.normalization.finite_positive(),
        derived.last_frequency.finite_positive(),
        0 <= winner,
        winner < p.frequency_count ==> ({
            let (start, end) = refinement_bounds_spec(p.frequency_count as int, winner);
            points.len() == end - start + 1
        }),
        forall|i: int| 0 <= i < points.len() ==> good_point(#[trigger] points[i]),
        p.frequency_start_index + p.frequency_count <= usize::MAX,
    ensures
        winner < p.frequency_count ==> refined(dataset, p, derived, winner, points) is Ok,
        winner >= p.frequency_count ==> refined(dataset, p, derived, winner, points) == Err::<
            LombResult,
            ComputeError,
        >(ComputeError::InvalidCount),
{
    searchable_inputs_are_accepted(dataset, p, derived);
    if winner < p.frequency_count {
        refinement_is_a_bounded_neighbourhood(p.frequency_count as int, winner);
        let start = refinement_bounds_spec(p.frequency_count as int, winner).0;
        assert forall|i: int| 0 <= i < points.len() implies power_spec(
            #[trigger] points[i],
        ) is Ok by {
            assert(good_point(points[i]));
        }
        good_points_have_indexed_powers(points, start);
        indexed_powers_len(points, start);
        let indexed = indexed_powers(points, start)->Ok_0;
        strongest_is_unique(powers_of(indexed));
        assert forall|i: int| 0 <= i < indexed.len() implies (#[trigger] powers_of(
            indexed,
        )[i]).finite() by {
            assert(power_spec(points[i]) == Ok::<Bits32, ComputeError>(indexed[i].1));
            assert(good_point(points[i]));
        }
        let w = strongest_index(powers_of(indexed));
        assert(indexed[w].0 == start + w);
    }
}

} // verus!
