//! Axis ranges: the extent of a sequence of values, and the padded interval
//! that an axis is given so that no value lies on the border of the plot.

use crate::error::PlotError;
use vstd::prelude::*;

verus! {

/// A closed interval of axis coordinates, from `start` up to `end`.
#[derive(Clone, Copy, PartialEq, Eq, Debug, Structural)]
pub struct Interval {
    pub start: i64,
    pub end: i64,
}

impl Interval {
    /// `v` lies in the interval, the bounds included.
    pub open spec fn contains(self, v: int) -> bool {
        self.start <= v <= self.end
    }

    /// Every value of `s` lies in the interval.
    pub open spec fn brackets(self, s: Seq<i64>) -> bool {
        forall|i: int| 0 <= i < s.len() ==> self.contains(#[trigger] s[i] as int)
    }

    /// The distance from `start` to `end`.
    pub open spec fn width(self) -> int {
        self.end - self.start
    }
}

/// `m` occurs in `s` and no value of `s` is below it.
pub open spec fn is_lowest(m: i64, s: Seq<i64>) -> bool {
    &&& exists|i: int| 0 <= i < s.len() && s[i] == m
    &&& forall|i: int| 0 <= i < s.len() ==> m <= #[trigger] s[i]
}

/// `m` occurs in `s` and no value of `s` is above it.
pub open spec fn is_highest(m: i64, s: Seq<i64>) -> bool {
    &&& exists|i: int| 0 <= i < s.len() && s[i] == m
    &&& forall|i: int| 0 <= i < s.len() ==> m >= #[trigger] s[i]
}

/// The least value of a non-empty sequence.
pub open spec fn lowest(s: Seq<i64>) -> i64
    decreases s.len(),
{
    if s.len() == 0 {
        0
    } else if s.len() == 1 {
        s[0]
    } else {
        let rest = lowest(s.drop_last());
        if s.last() < rest {
            s.last()
        } else {
            rest
        }
    }
}

/// The greatest value of a non-empty sequence.
pub open spec fn highest(s: Seq<i64>) -> i64
    decreases s.len(),
{
    if s.len() == 0 {
        0
    } else if s.len() == 1 {
        s[0]
    } else {
        let rest = highest(s.drop_last());
        if s.last() > rest {
            s.last()
        } else {
            rest
        }
    }
}

/// `lowest` and `highest` are the least and the greatest value that occur.
pub proof fn lemma_extremes(s: Seq<i64>)
    requires
        s.len() > 0,
    ensures
        is_lowest(lowest(s), s),
        is_highest(highest(s), s),
    decreases s.len(),
{
    if s.len() == 1 {
        assert(s[0] == lowest(s));
        assert(s[0] == highest(s));
    } else {
        let head = s.drop_last();
        lemma_extremes(head);
        let i = choose|i: int| 0 <= i < head.len() && head[i] == lowest(head);
        let j = choose|j: int| 0 <= j < head.len() && head[j] == highest(head);
        assert(s[i] == head[i] && s[j] == head[j]);
        assert(s[s.len() - 1] == s.last());
        assert forall|k: int| 0 <= k < s.len() implies lowest(s) <= #[trigger] s[k] && highest(s)
            >= s[k] by {
            if k < head.len() {
                assert(s[k] == head[k]);
            }
        }
    }
}

/// A sequence has one least and one greatest value.
pub proof fn lemma_extremes_unique(s: Seq<i64>, lo: i64, hi: i64)
    requires
        is_lowest(lo, s),
        is_highest(hi, s),
    ensures
        lo == lowest(s),
        hi == highest(s),
{
    lemma_extremes(s);
}

/// The nearest `i64` to `v`.
pub open spec fn saturate(v: int) -> i64 {
    if v < i64::MIN {
        i64::MIN
    } else if v > i64::MAX {
        i64::MAX
    } else {
        v as i64
    }
}

/// One part in this many of the extent is added on either side of a fitted range.
pub const MARGIN_DIVISOR: i64 = 20;

/// The margin that a fitted range adds below `lo` and above `hi`: a twentieth
/// of the extent, and never less than one unit.
pub open spec fn margin(lo: int, hi: int) -> int {
    if (hi - lo) / (MARGIN_DIVISOR as int) < 1 {
        1
    } else {
        (hi - lo) / (MARGIN_DIVISOR as int)
    }
}

/// The interval from `lo` to `hi` with the margin added on both sides, held
/// within the range of `i64`.
pub open spec fn padded(lo: int, hi: int) -> Interval {
    Interval { start: saturate(lo - margin(lo, hi)), end: saturate(hi + margin(lo, hi)) }
}

/// The axis range fitted to a non-empty sequence.
pub open spec fn fitted(s: Seq<i64>) -> Interval {
    padded(lowest(s) as int, highest(s) as int)
}

/// The unpadded extent of a non-empty sequence: its least and greatest value.
pub open spec fn extent(s: Seq<i64>) -> Interval {
    Interval { start: lowest(s), end: highest(s) }
}

/// The least and the greatest value of two sequences that are walked one
/// after the other are the lesser of the two least and the greater of the two
/// greatest.
pub proof fn lemma_extremes_of_both(a: Seq<i64>, b: Seq<i64>)
    requires
        a.len() > 0,
        b.len() > 0,
    ensures
        lowest(a + b) == if lowest(a) <= lowest(b) {
            lowest(a)
        } else {
            lowest(b)
        },
        highest(a + b) == if highest(a) >= highest(b) {
            highest(a)
        } else {
            highest(b)
        },
{
    lemma_extremes(a);
    lemma_extremes(b);
    let both = a + b;
    let lo = if lowest(a) <= lowest(b) {
        lowest(a)
    } else {
        lowest(b)
    };
    let hi = if highest(a) >= highest(b) {
        highest(a)
    } else {
        highest(b)
    };
    let la = choose|i: int| 0 <= i < a.len() && a[i] == lowest(a);
    let lb = choose|i: int| 0 <= i < b.len() && b[i] == lowest(b);
    let ha = choose|i: int| 0 <= i < a.len() && a[i] == highest(a);
    let hb = choose|i: int| 0 <= i < b.len() && b[i] == highest(b);
    assert(both[la] == a[la] && both[ha] == a[ha]);
    assert(both[a.len() + lb] == b[lb] && both[a.len() + hb] == b[hb]);
    assert forall|k: int| 0 <= k < both.len() implies lo <= #[trigger] both[k] && hi
        >= both[k] by {
        if k < a.len() {
            assert(both[k] == a[k]);
        } else {
            assert(both[k] == b[k - a.len()]);
        }
    }
    lemma_extremes_unique(both, lo, hi);
}

/// A tenth of the magnitude of `v`, rounded up.
pub open spec fn tenth(v: int) -> int {
    if v < 0 {
        (9 - v) / 10
    } else {
        (v + 9) / 10
    }
}

/// The interval with its upper bound raised by a tenth of that bound's
/// magnitude, held within the range of `i64`.
pub open spec fn with_headroom(r: Interval) -> Interval {
    Interval { start: r.start, end: saturate(r.end + tenth(r.end as int)) }
}

/// Calls `plotters::data::fitting_range`, which walks the values once and
/// keeps the least and the greatest of them. The contract claims that, of a
/// sequence that is not empty, the pair returned is that least and that
/// greatest value, and of an empty one the pair of zero and one.
#[verifier::external_body]
fn fitting_bounds(values: &[i64]) -> (r: (i64, i64))
    ensures
        values@.len() > 0 ==> is_lowest(r.0, values@) && is_highest(r.1, values@),
        values@.len() == 0 ==> r == (0i64, 1i64),
{
    let range = plotters::data::fitting_range(values.iter());
    (range.start, range.end)
}

/// Adds the margin to both sides of `lo..hi`.
pub fn pad(lo: i64, hi: i64) -> (r: Interval)
    ensures
        r == padded(lo as int, hi as int),
        r.start <= lo,
        hi <= r.end,
        lo <= hi ==> r.start < r.end,
{
    let span: i128 = hi as i128 - lo as i128;
    let by: i128 = if span < 20 {
        1
    } else {
        span / 20
    };
    let below: i128 = lo as i128 - by;
    let above: i128 = hi as i128 + by;
    let start: i64 = if below < i64::MIN as i128 {
        i64::MIN
    } else {
        below as i64
    };
    let end: i64 = if above > i64::MAX as i128 {
        i64::MAX
    } else {
        above as i64
    };
    Interval { start, end }
}

/// Fits an axis range to `values`: their extent, padded so that no value lies
/// on a bound and so that the range has a width even where all values agree.
/// An empty sequence has no range.
pub fn fit_range(values: &[i64]) -> (r: Result<Interval, PlotError>)
    ensures
        values@.len() == 0 ==> r == Err::<Interval, PlotError>(PlotError::EmptySeries),
        values@.len() > 0 ==> r == Ok::<Interval, PlotError>(fitted(values@)),
        r matches Ok(range) ==> range.brackets(values@) && range.width() > 0,
{
    if values.len() == 0 {
        return Err(PlotError::EmptySeries);
    }
    let (lo, hi) = fitting_bounds(values);
    proof {
        lemma_extremes_unique(values@, lo, hi);
    }
    let range = pad(lo, hi);
    Ok(range)
}

/// Fits one axis range to the values of two sequences together. Either may be
/// empty; where both are, there is no range.
pub fn fit_joint(first: &[i64], second: &[i64]) -> (r: Result<Interval, PlotError>)
    ensures
        first@.len() + second@.len() == 0 ==> r == Err::<Interval, PlotError>(
            PlotError::EmptySeries,
        ),
        first@.len() + second@.len() > 0 ==> r == Ok::<Interval, PlotError>(
            fitted(first@ + second@),
        ),
        r matches Ok(range) ==> range.brackets(first@) && range.brackets(second@) && range.width()
            > 0,
{
    if first.len() == 0 {
        assert(first@ + second@ =~= second@);
        return fit_range(second);
    }
    if second.len() == 0 {
        assert(first@ + second@ =~= first@);
        return fit_range(first);
    }
    let (lo_1, hi_1) = fitting_bounds(first);
    let (lo_2, hi_2) = fitting_bounds(second);
    proof {
        lemma_extremes_unique(first@, lo_1, hi_1);
        lemma_extremes_unique(second@, lo_2, hi_2);
        lemma_extremes_of_both(first@, second@);
    }
    let lo = if lo_1 <= lo_2 {
        lo_1
    } else {
        lo_2
    };
    let hi = if hi_1 >= hi_2 {
        hi_1
    } else {
        hi_2
    };
    Ok(pad(lo, hi))
}

/// Finds the least and the greatest of `values`, with no margin added. An
/// empty sequence has neither.
pub fn extent_of(values: &[i64]) -> (r: Result<Interval, PlotError>)
    ensures
        values@.len() == 0 ==> r == Err::<Interval, PlotError>(PlotError::EmptySeries),
        values@.len() > 0 ==> r == Ok::<Interval, PlotError>(extent(values@)),
        r matches Ok(range) ==> range.brackets(values@),
{
    if values.len() == 0 {
        return Err(PlotError::EmptySeries);
    }
    let mut lo: i64 = values[0];
    let mut hi: i64 = values[0];
    let mut i: usize = 1;
    assert(values@.subrange(0, 1) =~= seq![values@[0]]);
    while i < values.len()
        invariant
            1 <= i <= values@.len(),
            lo == lowest(values@.subrange(0, i as int)),
            hi == highest(values@.subrange(0, i as int)),
        decreases values@.len() - i,
    {
        let v: i64 = values[i];
        proof {
            let next = values@.subrange(0, i + 1);
            assert(next.drop_last() =~= values@.subrange(0, i as int));
            assert(next.last() == v);
        }
        if v < lo {
            lo = v;
        }
        if v > hi {
            hi = v;
        }
        i = i + 1;
    }
    proof {
        assert(values@.subrange(0, i as int) =~= values@);
        lemma_extremes(values@);
    }
    Ok(Interval { start: lo, end: hi })
}

/// Raises the upper bound of `range` by a tenth of its magnitude, so that the
/// highest value stays clear of the top of the plot.
pub fn add_headroom(range: Interval) -> (r: Interval)
    ensures
        r == with_headroom(range),
        r.start == range.start,
        r.end >= range.end,
{
    let end: i128 = range.end as i128;
    let rise: i128 = if end < 0 {
        (9 - end) / 10
    } else {
        (end + 9) / 10
    };
    let raised: i128 = end + rise;
    let top: i64 = if raised > i64::MAX as i128 {
        i64::MAX
    } else {
        raised as i64
    };
    Interval { start: range.start, end: top }
}

} // verus!
