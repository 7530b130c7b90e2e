//! What holds of every plan, stated over the specifications of the charts
//! and proved.

use crate::chart::{ChartView, Label, Scale};
use crate::context::{PlotContext, PlotData};
use crate::dispatch::{
    comparison_request, optional_answer, PlotKind, ReportFile, Request, RequestView,
};
use crate::error::PlotError;
use crate::geometry::{FilledCurve, Line, LineCurve, Points, RectangleArea, Size};
use crate::plans::{
    abs_distribution_plan, iteration_times_plan, regression_comparison_plan, regression_plan,
    rel_distribution_plan,
};
use crate::range::{
    extent, fitted, highest, lemma_extremes, lemma_extremes_of_both, lowest, with_headroom,
    Interval,
};
use vstd::prelude::*;

verus! {

/// The range fitted to a sequence that is not empty holds every value of the
/// sequence, and is wider than nothing even where all the values agree.
pub proof fn lemma_fitted_brackets(s: Seq<i64>)
    requires
        s.len() > 0,
    ensures
        fitted(s).brackets(s),
        fitted(s).width() > 0,
        fitted(s).start < fitted(s).end,
{
    lemma_extremes(s);
}

/// The extent of a sequence that is not empty holds every value of it.
pub proof fn lemma_extent_brackets(s: Seq<i64>)
    requires
        s.len() > 0,
    ensures
        extent(s).brackets(s),
        extent(s).start <= extent(s).end,
{
    lemma_extremes(s);
}

/// The range fitted to two sequences together holds every value of either.
pub proof fn lemma_joint_fit_brackets(a: Seq<i64>, b: Seq<i64>)
    requires
        a.len() > 0,
        b.len() > 0,
    ensures
        fitted(a + b).brackets(a),
        fitted(a + b).brackets(b),
        fitted(a + b).width() > 0,
{
    lemma_extremes(a);
    lemma_extremes(b);
    lemma_extremes_of_both(a, b);
}

/// Headroom moves the upper bound up or leaves it, and leaves the lower
/// bound: what a range held, it still holds.
pub proof fn lemma_headroom_keeps(r: Interval, s: Seq<i64>)
    requires
        r.brackets(s),
    ensures
        with_headroom(r).brackets(s),
        with_headroom(r).start == r.start,
        with_headroom(r).end >= r.end,
        r.end > 0 ==> with_headroom(r).end > r.end || r.end == i64::MAX,
{
    assert forall|i: int| 0 <= i < s.len() implies with_headroom(r).contains(
        #[trigger] s[i] as int,
    ) by {
        assert(r.contains(s[i] as int));
    }
}

/// Two plans show the same drawing: the same canvas, the same ranges, and
/// the same series with the same shapes in the same order.
pub open spec fn same_drawing(a: ChartView, b: ChartView) -> bool {
    &&& a.canvas == b.canvas
    &&& a.x_range == b.x_range
    &&& a.y_range == b.y_range
    &&& a.series == b.series
}

/// Two renders ended alike: with the same drawing, or with the same error.
pub open spec fn same_result(
    a: Result<ChartView, PlotError>,
    b: Result<ChartView, PlotError>,
) -> bool {
    match (a, b) {
        (Ok(x), Ok(y)) => same_drawing(x, y),
        (Err(x), Err(y)) => x == y,
        _ => false,
    }
}

/// The curves hold the same samples.
pub open spec fn same_curve(a: LineCurve, b: LineCurve) -> bool {
    a.xs@ == b.xs@ && a.ys@ == b.ys@
}

/// The bands hold the same samples.
pub open spec fn same_band(a: FilledCurve, b: FilledCurve) -> bool {
    a.xs@ == b.xs@ && a.ys_1@ == b.ys_1@ && a.ys_2@ == b.ys_2@
}

/// The point sets hold the same samples.
pub open spec fn same_points(a: Points, b: Points) -> bool {
    a.xs@ == b.xs@ && a.ys@ == b.ys@
}

/// Both runs are absent, or both are there with the same samples.
pub open spec fn same_base(a: Option<Points>, b: Option<Points>) -> bool {
    match (a, b) {
        (Some(x), Some(y)) => same_points(x, y),
        (None, None) => true,
        _ => false,
    }
}

/// Two renders of a bootstrap distribution from the same samples at the same
/// size show the same drawing, whatever they are called and labelled.
pub proof fn lemma_abs_distribution_repeats(
    title_a: Seq<char>,
    statistic_a: Seq<char>,
    unit_a: Seq<char>,
    curve_a: LineCurve,
    band_a: FilledCurve,
    title_b: Seq<char>,
    statistic_b: Seq<char>,
    unit_b: Seq<char>,
    curve_b: LineCurve,
    band_b: FilledCurve,
    size: Option<Size>,
    estimate: Line,
)
    requires
        same_curve(curve_a, curve_b),
        same_band(band_a, band_b),
    ensures
        same_result(
            abs_distribution_plan(title_a, statistic_a, size, unit_a, curve_a, band_a, estimate),
            abs_distribution_plan(title_b, statistic_b, size, unit_b, curve_b, band_b, estimate),
        ),
{
}

/// Two renders of the distribution of a relative change from the same
/// samples at the same size show the same drawing.
pub proof fn lemma_rel_distribution_repeats(
    title_a: Seq<char>,
    statistic_a: Seq<char>,
    curve_a: LineCurve,
    band_a: FilledCurve,
    title_b: Seq<char>,
    statistic_b: Seq<char>,
    curve_b: LineCurve,
    band_b: FilledCurve,
    size: Option<Size>,
    estimate: Line,
    noise: RectangleArea,
)
    requires
        same_curve(curve_a, curve_b),
        same_band(band_a, band_b),
    ensures
        same_result(
            rel_distribution_plan(title_a, statistic_a, size, curve_a, band_a, estimate, noise),
            rel_distribution_plan(title_b, statistic_b, size, curve_b, band_b, estimate, noise),
        ),
{
}

/// Two renders of the iteration times of the same runs at the same size show
/// the same drawing, as a thumbnail as well as in full.
pub proof fn lemma_iteration_times_repeats(
    title_a: Seq<char>,
    unit_a: Seq<char>,
    thumbnail_a: bool,
    current_a: Points,
    base_a: Option<Points>,
    title_b: Seq<char>,
    unit_b: Seq<char>,
    thumbnail_b: bool,
    current_b: Points,
    base_b: Option<Points>,
    size: Option<Size>,
)
    requires
        same_points(current_a, current_b),
        same_base(base_a, base_b),
    ensures
        same_result(
            iteration_times_plan(title_a, size, unit_a, thumbnail_a, current_a, base_a),
            iteration_times_plan(title_b, size, unit_b, thumbnail_b, current_b, base_b),
        ),
{
}

/// Two renders of a regression from the same samples at the same size show
/// the same drawing, as a thumbnail as well as in full.
pub proof fn lemma_regression_repeats(
    title_a: Seq<char>,
    label_a: Seq<char>,
    unit_a: Seq<char>,
    thumbnail_a: bool,
    sample_a: Points,
    band_a: FilledCurve,
    title_b: Seq<char>,
    label_b: Seq<char>,
    unit_b: Seq<char>,
    thumbnail_b: bool,
    sample_b: Points,
    band_b: FilledCurve,
    size: Option<Size>,
    x_scale: Scale,
    regression: Line,
)
    requires
        same_points(sample_a, sample_b),
        same_band(band_a, band_b),
    ensures
        same_result(
            regression_plan(
                title_a,
                size,
                thumbnail_a,
                label_a,
                x_scale,
                unit_a,
                sample_a,
                regression,
                band_a,
            ),
            regression_plan(
                title_b,
                size,
                thumbnail_b,
                label_b,
                x_scale,
                unit_b,
                sample_b,
                regression,
                band_b,
            ),
        ),
{
}

/// Two renders of the comparison of the same regressions at the same size
/// show the same drawing, as a thumbnail as well as in full.
pub proof fn lemma_regression_comparison_repeats(
    title_a: Seq<char>,
    label_a: Seq<char>,
    unit_a: Seq<char>,
    thumbnail_a: bool,
    current_band_a: FilledCurve,
    base_band_a: FilledCurve,
    title_b: Seq<char>,
    label_b: Seq<char>,
    unit_b: Seq<char>,
    thumbnail_b: bool,
    current_band_b: FilledCurve,
    base_band_b: FilledCurve,
    size: Option<Size>,
    x_scale: Scale,
    current: Line,
    base: Line,
)
    requires
        same_band(current_band_a, current_band_b),
        same_band(base_band_a, base_band_b),
    ensures
        same_result(
            regression_comparison_plan(
                title_a,
                size,
                thumbnail_a,
                label_a,
                x_scale,
                unit_a,
                current,
                current_band_a,
                base,
                base_band_a,
            ),
            regression_comparison_plan(
                title_b,
                size,
                thumbnail_b,
                label_b,
                x_scale,
                unit_b,
                current,
                current_band_b,
                base,
                base_band_b,
            ),
        ),
{
}

/// A thumbnail shows neither a title nor a legend, and a full chart shows
/// both: this holds of every chart that can be asked for as a thumbnail.
pub proof fn lemma_thumbnails_are_bare(
    title: Seq<char>,
    size: Option<Size>,
    is_thumbnail: bool,
    x_label: Seq<char>,
    x_scale: Scale,
    unit: Seq<char>,
    points: Points,
    base_points: Option<Points>,
    line: Line,
    band: FilledCurve,
    base_line: Line,
    base_band: FilledCurve,
)
    ensures
        iteration_times_plan(title, size, unit, is_thumbnail, points, base_points) matches Ok(
            chart,
        ) ==> if is_thumbnail {
            chart.undecorated()
        } else {
            chart.decorated() && chart.caption == Some(title)
        },
        regression_plan(
            title,
            size,
            is_thumbnail,
            x_label,
            x_scale,
            unit,
            points,
            line,
            band,
        ) matches Ok(chart) ==> if is_thumbnail {
            chart.undecorated()
        } else {
            chart.decorated() && chart.caption == Some(title)
        },
        regression_comparison_plan(
            title,
            size,
            is_thumbnail,
            x_label,
            x_scale,
            unit,
            line,
            band,
            base_line,
            base_band,
        ) matches Ok(chart) ==> if is_thumbnail {
            chart.undecorated()
        } else {
            chart.decorated() && chart.caption == Some(title)
        },
{
}

/// The charts of a distribution have no thumbnail form: they always show
/// their title and their legend.
pub proof fn lemma_distributions_are_decorated(
    title: Seq<char>,
    statistic: Seq<char>,
    size: Option<Size>,
    x_unit: Seq<char>,
    curve: LineCurve,
    band: FilledCurve,
    estimate: Line,
    noise: RectangleArea,
)
    ensures
        abs_distribution_plan(title, statistic, size, x_unit, curve, band, estimate) matches Ok(
            chart,
        ) ==> chart.decorated(),
        rel_distribution_plan(title, statistic, size, curve, band, estimate, noise) matches Ok(
            chart,
        ) ==> chart.decorated(),
{
}

/// Without a base run the iteration times show the current run alone, and the
/// legend has no entry for the base; with one, the base follows the current
/// run.
pub proof fn lemma_base_run_is_optional(
    title: Seq<char>,
    size: Option<Size>,
    unit: Seq<char>,
    is_thumbnail: bool,
    current_times: Points,
    base_times: Option<Points>,
)
    ensures
        iteration_times_plan(
            title,
            size,
            unit,
            is_thumbnail,
            current_times,
            base_times,
        ) matches Ok(chart) ==> chart.labels() == if base_times is None {
            seq![Label::Current]
        } else {
            seq![Label::Current, Label::Base]
        },
{
    let plan = iteration_times_plan(title, size, unit, is_thumbnail, current_times, base_times);
    if plan is Ok {
        let chart = plan->Ok_0;
        if base_times is None {
            assert(chart.labels() =~= seq![Label::Current]);
        } else {
            assert(chart.labels() =~= seq![Label::Current, Label::Base]);
        }
    }
}

/// A plot that compares two runs, asked for without comparison data, fails
/// with the error of a violated precondition, whatever else is asked.
pub proof fn lemma_comparison_needs_data(
    kind: PlotKind,
    file: ReportFile,
    titled: bool,
    ctx: PlotContext,
    data: PlotData,
)
    requires
        !data.has_comparison,
    ensures
        comparison_request(kind, file, titled, ctx, data) == Err::<RequestView, PlotError>(
            PlotError::MissingComparison,
        ),
        PlotError::MissingComparison.is_precondition(),
{
}

/// No backend answers a plot that compares two runs with a request where
/// there is no comparison data.
pub proof fn lemma_no_comparison_no_request(
    kind: PlotKind,
    data: PlotData,
    r: Result<Request, PlotError>,
)
    requires
        kind.compares(),
        !data.has_comparison,
        optional_answer(kind, data, r),
    ensures
        r is Err,
{
}

/// The axes of a bootstrap distribution hold the whole curve, and the
/// vertical one reaches above its peak where the peak is above zero.
pub proof fn lemma_abs_distribution_shows_curve(
    title: Seq<char>,
    statistic: Seq<char>,
    size: Option<Size>,
    x_unit: Seq<char>,
    curve: LineCurve,
    band: FilledCurve,
    estimate: Line,
)
    ensures
        abs_distribution_plan(title, statistic, size, x_unit, curve, band, estimate) matches Ok(
            chart,
        ) ==> {
            &&& chart.x_range.brackets(curve.xs@)
            &&& chart.y_range.brackets(curve.ys@)
            &&& chart.x_range.width() > 0
            &&& chart.y_range.width() > 0
            &&& (0 < highest(curve.ys@) < i64::MAX ==> chart.y_range.end > highest(curve.ys@))
        },
{
    if abs_distribution_plan(title, statistic, size, x_unit, curve, band, estimate) is Ok {
        lemma_fitted_brackets(curve.xs@);
        lemma_fitted_brackets(curve.ys@);
        lemma_headroom_keeps(fitted(curve.ys@), curve.ys@);
        lemma_extremes(curve.ys@);
    }
}

/// The axes of the distribution of a relative change hold the whole curve;
/// the horizontal one ends exactly at the curve's least and greatest position.
pub proof fn lemma_rel_distribution_shows_curve(
    title: Seq<char>,
    statistic: Seq<char>,
    size: Option<Size>,
    curve: LineCurve,
    band: FilledCurve,
    estimate: Line,
    noise: RectangleArea,
)
    ensures
        rel_distribution_plan(title, statistic, size, curve, band, estimate, noise) matches Ok(
            chart,
        ) ==> {
            &&& chart.x_range.brackets(curve.xs@)
            &&& chart.x_range.start == lowest(curve.xs@)
            &&& chart.x_range.end == highest(curve.xs@)
            &&& chart.y_range.brackets(curve.ys@)
            &&& chart.y_range.width() > 0
        },
{
    if rel_distribution_plan(title, statistic, size, curve, band, estimate, noise) is Ok {
        lemma_extent_brackets(curve.xs@);
        lemma_fitted_brackets(curve.ys@);
    }
}

/// The axes of the iteration times hold both runs: the vertical one every
/// time of either, the horizontal one, which starts at one, every iteration
/// up to the last of the longer run.
pub proof fn lemma_iteration_times_shows_both(
    title: Seq<char>,
    size: Option<Size>,
    unit: Seq<char>,
    is_thumbnail: bool,
    current_times: Points,
    base_times: Option<Points>,
)
    ensures
        iteration_times_plan(
            title,
            size,
            unit,
            is_thumbnail,
            current_times,
            base_times,
        ) matches Ok(chart) ==> {
            &&& chart.x_range.start == 1
            &&& forall|i: int|
                0 <= i < current_times.xs@.len() ==> #[trigger] current_times.xs@[i]
                    <= chart.x_range.end
            &&& chart.y_range.brackets(current_times.ys@)
            &&& chart.y_range.width() > 0
            &&& base_times matches Some(base) ==> {
                &&& forall|i: int|
                    0 <= i < base.xs@.len() ==> #[trigger] base.xs@[i] <= chart.x_range.end
                &&& chart.y_range.brackets(base.ys@)
            }
        },
{
    if iteration_times_plan(title, size, unit, is_thumbnail, current_times, base_times) is Ok {
        lemma_extremes(current_times.xs@);
        match base_times {
            Some(base) => {
                lemma_extremes(base.xs@);
                lemma_joint_fit_brackets(current_times.ys@, base.ys@);
            },
            None => {
                lemma_fitted_brackets(current_times.ys@);
            },
        }
    }
}

/// The axes of a regression hold every sample.
pub proof fn lemma_regression_shows_samples(
    title: Seq<char>,
    size: Option<Size>,
    is_thumbnail: bool,
    x_label: Seq<char>,
    x_scale: Scale,
    unit: Seq<char>,
    sample: Points,
    regression: Line,
    confidence_interval: FilledCurve,
)
    ensures
        regression_plan(
            title,
            size,
            is_thumbnail,
            x_label,
            x_scale,
            unit,
            sample,
            regression,
            confidence_interval,
        ) matches Ok(chart) ==> {
            &&& chart.x_range.brackets(sample.xs@)
            &&& chart.y_range.brackets(sample.ys@)
            &&& chart.x_range.width() > 0
            &&& chart.y_range.width() > 0
        },
{
    if regression_plan(
        title,
        size,
        is_thumbnail,
        x_label,
        x_scale,
        unit,
        sample,
        regression,
        confidence_interval,
    ) is Ok {
        lemma_fitted_brackets(sample.xs@);
        lemma_fitted_brackets(sample.ys@);
    }
}

/// The vertical axis of a comparison of regressions starts at zero and ends
/// at the higher end of the two lines, so that it reaches the end of either;
/// the legend has one entry for each regression, the base first.
pub proof fn lemma_regression_comparison_shows_both(
    title: Seq<char>,
    size: Option<Size>,
    is_thumbnail: bool,
    x_label: Seq<char>,
    x_scale: Scale,
    unit: Seq<char>,
    current_regression: Line,
    current_confidence_interval: FilledCurve,
    base_regression: Line,
    base_confidence_interval: FilledCurve,
)
    ensures
        regression_comparison_plan(
            title,
            size,
            is_thumbnail,
            x_label,
            x_scale,
            unit,
            current_regression,
            current_confidence_interval,
            base_regression,
            base_confidence_interval,
        ) matches Ok(chart) ==> {
            &&& chart.x_range == Interval { start: 0, end: current_regression.end.x }
            &&& chart.y_range.start == 0
            &&& chart.y_range.end >= current_regression.end.y
            &&& chart.y_range.end >= base_regression.end.y
            &&& (chart.y_range.end == current_regression.end.y || chart.y_range.end
                == base_regression.end.y)
            &&& chart.labels() == seq![Label::BaseSample, Label::NewSample]
        },
{
    let plan = regression_comparison_plan(
        title,
        size,
        is_thumbnail,
        x_label,
        x_scale,
        unit,
        current_regression,
        current_confidence_interval,
        base_regression,
        base_confidence_interval,
    );
    if plan is Ok {
        assert(plan->Ok_0.labels() =~= seq![Label::BaseSample, Label::NewSample]);
    }
}

} // verus!
