//! What each chart of the report consists of, stated over views. The plans
//! that the backend returns are proved equal to these.

use crate::chart::{
    bracketed, ChartView, Color, Corner, ElementView, Frame, Glyph, Label, Legend, Mesh, Scale,
    SeriesView, ShapeView, Style, Ticks,
};
use crate::error::PlotError;
use crate::chart::POINT_SIZE;
use crate::geometry::{
    canvas_of, ends, zipped, FilledCurve, Line, LineCurve, Point, Points, RectangleArea, Size,
};
use crate::range::{extent, fitted, highest, with_headroom, Interval};
use vstd::prelude::*;

verus! {

/// The first of two defects, in the order in which the inputs are used.
pub open spec fn first_defect(a: Option<PlotError>, b: Option<PlotError>) -> Option<PlotError> {
    if a is Some {
        a
    } else {
        b
    }
}

/// The title of a full-size chart; a thumbnail has none.
pub open spec fn caption_unless(is_thumbnail: bool, title: Seq<char>) -> Option<Seq<char>> {
    if is_thumbnail {
        None
    } else {
        Some(title)
    }
}

/// The place of the legend of a full-size chart; a thumbnail has none.
pub open spec fn legend_unless(is_thumbnail: bool, corner: Corner) -> Option<Corner> {
    if is_thumbnail {
        None
    } else {
        Some(corner)
    }
}

/// The greater of two coordinates.
pub open spec fn larger(a: i64, b: i64) -> i64 {
    if a >= b {
        a
    } else {
        b
    }
}

/// A regression as one series: the fitted line, and over it the wedge that
/// stands for its confidence band.
pub open spec fn regression_series(
    line: Line,
    band: FilledCurve,
    color: Color,
    label: Label,
) -> SeriesView {
    SeriesView::pair(
        ElementView { shape: ShapeView::Path(ends(line)), style: Style::outline(color) },
        ElementView {
            shape: ShapeView::Polygon(band.wedge_corners()),
            style: Style::solid(color, 25, 1),
        },
        Legend { label, glyph: Glyph::Stroke, style: Style::solid(color, 100, 2) },
    )
}

/// The comparison of two regressions. Both axes start at zero; the horizontal
/// one ends where the current regression ends, the vertical one at the higher
/// of the two ends. The base regression is drawn first and the current one
/// over it, each as a single entry of the legend.
pub open spec fn regression_comparison_plan(
    title: Seq<char>,
    size: Option<Size>,
    is_thumbnail: bool,
    x_label: Seq<char>,
    x_scale: Scale,
    unit: Seq<char>,
    current_regression: Line,
    current_confidence_interval: FilledCurve,
    base_regression: Line,
    base_confidence_interval: FilledCurve,
) -> Result<ChartView, PlotError> {
    match first_defect(
        base_confidence_interval.wedge_defect(),
        current_confidence_interval.wedge_defect(),
    ) {
        Some(e) => Err(e),
        None => Ok(
            ChartView {
                canvas: canvas_of(size),
                frame: Frame::standard(),
                caption: caption_unless(is_thumbnail, title),
                x_range: Interval { start: 0, end: current_regression.end.x },
                y_range: Interval {
                    start: 0,
                    end: larger(current_regression.end.y, base_regression.end.y),
                },
                x_desc: Some(x_label),
                y_desc: Some(bracketed("Total sample time ("@, unit)),
                x_ticks: Ticks::Scaled(x_scale),
                y_ticks: Ticks::Plain,
                mesh: Mesh::Coarse,
                series: seq![
                    regression_series(
                        base_regression,
                        base_confidence_interval,
                        Color::DarkRed,
                        Label::BaseSample,
                    ),
                    regression_series(
                        current_regression,
                        current_confidence_interval,
                        Color::DarkBlue,
                        Label::NewSample,
                    ),
                ],
                legend: legend_unless(is_thumbnail, Corner::UpperLeft),
            },
        ),
    }
}

/// The samples of a run as markers of one colour.
pub open spec fn sample_series(points: Points, color: Color, label: Label) -> SeriesView {
    SeriesView::single(
        ShapeView::Markers { points: zipped(points.xs@, points.ys@), radius: POINT_SIZE },
        Style::solid(color, 100, 1),
        Legend { label, glyph: Glyph::Dot, style: Style::solid(color, 100, 1) },
    )
}

/// The fitted line of a regression.
pub open spec fn fit_series(line: Line) -> SeriesView {
    SeriesView::single(
        ShapeView::Path(ends(line)),
        Style::outline(Color::DarkBlue),
        Legend {
            label: Label::LinearRegression,
            glyph: Glyph::Stroke,
            style: Style::solid(Color::DarkBlue, 100, 2),
        },
    )
}

/// The confidence band of a regression: a wedge through three of the four
/// corners of the band between its first two samples.
pub open spec fn wedge_series(band: FilledCurve) -> SeriesView {
    SeriesView::single(
        ShapeView::Polygon(band.wedge_corners()),
        Style::solid(Color::DarkBlue, 25, 1),
        Legend {
            label: Label::ConfidenceInterval,
            glyph: Glyph::Patch,
            style: Style::solid(Color::DarkBlue, 25, 1),
        },
    )
}

/// The regression of one run. Both axes are fitted to the samples, not to the
/// line. The samples are drawn first, the line over them, the band last.
pub open spec fn regression_plan(
    title: Seq<char>,
    size: Option<Size>,
    is_thumbnail: bool,
    x_label: Seq<char>,
    x_scale: Scale,
    unit: Seq<char>,
    sample: Points,
    regression: Line,
    confidence_interval: FilledCurve,
) -> Result<ChartView, PlotError> {
    match first_defect(sample.defect(), confidence_interval.wedge_defect()) {
        Some(e) => Err(e),
        None => Ok(
            ChartView {
                canvas: canvas_of(size),
                frame: Frame::standard(),
                caption: caption_unless(is_thumbnail, title),
                x_range: fitted(sample.xs@),
                y_range: fitted(sample.ys@),
                x_desc: Some(x_label),
                y_desc: Some(bracketed("Total sample time ("@, unit)),
                x_ticks: Ticks::Scaled(x_scale),
                y_ticks: Ticks::Plain,
                mesh: Mesh::Coarse,
                series: seq![
                    sample_series(sample, Color::DarkBlue, Label::Sample),
                    fit_series(regression),
                    wedge_series(confidence_interval),
                ],
                legend: legend_unless(is_thumbnail, Corner::UpperLeft),
            },
        ),
    }
}

/// The defect of a base run that may be absent.
pub open spec fn optional_defect(base: Option<Points>) -> Option<PlotError> {
    match base {
        Some(b) => b.defect(),
        None => None,
    }
}

/// The time of each iteration of the current run and, where there is one, of
/// the base run. The horizontal axis counts iterations from one to the most
/// that either run has; the vertical axis is fitted to the times of both. The
/// current run is drawn first. Without a base run there is neither a series
/// nor an entry of the legend for it.
pub open spec fn iteration_times_plan(
    title: Seq<char>,
    size: Option<Size>,
    unit: Seq<char>,
    is_thumbnail: bool,
    current_times: Points,
    base_times: Option<Points>,
) -> Result<ChartView, PlotError> {
    match first_defect(current_times.defect(), optional_defect(base_times)) {
        Some(e) => Err(e),
        None => Ok(
            ChartView {
                canvas: canvas_of(size),
                frame: Frame::standard(),
                caption: caption_unless(is_thumbnail, title),
                x_range: Interval {
                    start: 1,
                    end: match base_times {
                        Some(base) => larger(highest(current_times.xs@), highest(base.xs@)),
                        None => highest(current_times.xs@),
                    },
                },
                y_range: match base_times {
                    Some(base) => fitted(current_times.ys@ + base.ys@),
                    None => fitted(current_times.ys@),
                },
                x_desc: None,
                y_desc: Some(bracketed("Average Iteration Time ("@, unit)),
                x_ticks: Ticks::Pretty,
                y_ticks: Ticks::Plain,
                mesh: Mesh::Coarse,
                series: match base_times {
                    Some(base) => seq![
                        sample_series(current_times, Color::DarkBlue, Label::Current),
                        sample_series(base, Color::DarkRed, Label::Base),
                    ],
                    None => seq![sample_series(current_times, Color::DarkBlue, Label::Current)],
                },
                legend: legend_unless(is_thumbnail, Corner::UpperLeft),
            },
        ),
    }
}

/// The title of a distribution: the benchmark, a colon, the statistic.
pub open spec fn distribution_caption(title: Seq<char>, statistic: Seq<char>) -> Seq<char> {
    title + ":"@ + statistic
}

/// The density curve of a bootstrap distribution.
pub open spec fn density_series(curve: LineCurve) -> SeriesView {
    SeriesView::single(
        ShapeView::Path(zipped(curve.xs@, curve.ys@)),
        Style::outline(Color::DarkBlue),
        Legend {
            label: Label::BootstrapDistribution,
            glyph: Glyph::Stroke,
            style: Style::outline(Color::DarkBlue),
        },
    )
}

/// The confidence interval of a distribution: the area from the zero line up
/// to the upper boundary of the band at each of its samples.
pub open spec fn interval_series(band: FilledCurve) -> SeriesView {
    SeriesView::single(
        ShapeView::Area { points: zipped(band.xs@, band.ys_1@), baseline: 0 },
        Style::solid(Color::DarkBlue, 25, 3),
        Legend {
            label: Label::ConfidenceInterval,
            glyph: Glyph::Patch,
            style: Style::solid(Color::DarkBlue, 25, 1),
        },
    )
}

/// The point estimate: a thick marker along the given segment.
pub open spec fn estimate_series(estimate: Line) -> SeriesView {
    SeriesView::single(
        ShapeView::Path(ends(estimate)),
        Style::solid(Color::DarkBlue, 100, 3),
        Legend {
            label: Label::PointEstimate,
            glyph: Glyph::Stroke,
            style: Style::outline(Color::DarkBlue),
        },
    )
}

/// The noise threshold: a faint band from `left` to `right` over the whole
/// height of the plot.
pub open spec fn noise_series(noise: RectangleArea, y_range: Interval) -> SeriesView {
    SeriesView::single(
        ShapeView::Rectangle {
            from: Point { x: noise.left, y: y_range.start },
            to: Point { x: noise.right, y: y_range.end },
        },
        Style::solid(Color::DarkRed, 10, 1),
        Legend {
            label: Label::NoiseThreshold,
            glyph: Glyph::Patch,
            style: Style::solid(Color::DarkRed, 25, 1),
        },
    )
}

/// The bootstrap distribution of a statistic. The horizontal axis is fitted
/// to the curve's positions; the vertical one to its densities, with headroom
/// above the peak. The curve is drawn first, then the confidence interval,
/// then the point estimate. The chart always has its title and its legend.
pub open spec fn abs_distribution_plan(
    title: Seq<char>,
    statistic: Seq<char>,
    size: Option<Size>,
    x_unit: Seq<char>,
    distribution_curve: LineCurve,
    bootstrap_area: FilledCurve,
    point_estimate: Line,
) -> Result<ChartView, PlotError> {
    match first_defect(distribution_curve.defect(), bootstrap_area.defect()) {
        Some(e) => Err(e),
        None => Ok(
            ChartView {
                canvas: canvas_of(size),
                frame: Frame::standard(),
                caption: Some(distribution_caption(title, statistic)),
                x_range: fitted(distribution_curve.xs@),
                y_range: with_headroom(fitted(distribution_curve.ys@)),
                x_desc: Some(bracketed("Average time ("@, x_unit)),
                y_desc: Some("Density (a.u.)"@),
                x_ticks: Ticks::Pretty,
                y_ticks: Ticks::Pretty,
                mesh: Mesh::Hidden,
                series: seq![
                    density_series(distribution_curve),
                    interval_series(bootstrap_area),
                    estimate_series(point_estimate),
                ],
                legend: Some(Corner::UpperRight),
            },
        ),
    }
}

/// The distribution of a relative change. The horizontal axis spans the
/// curve's own least and greatest position, with no margin; the vertical one
/// is fitted to its densities. The noise threshold lies beneath the other
/// series: it is drawn first, then the curve, the confidence interval and the
/// point estimate. The chart always has its title and its legend.
pub open spec fn rel_distribution_plan(
    title: Seq<char>,
    statistic: Seq<char>,
    size: Option<Size>,
    distribution_curve: LineCurve,
    confidence_interval: FilledCurve,
    point_estimate: Line,
    noise_threshold: RectangleArea,
) -> Result<ChartView, PlotError> {
    match first_defect(distribution_curve.defect(), confidence_interval.defect()) {
        Some(e) => Err(e),
        None => Ok(
            ChartView {
                canvas: canvas_of(size),
                frame: Frame::standard(),
                caption: Some(distribution_caption(title, statistic)),
                x_range: extent(distribution_curve.xs@),
                y_range: fitted(distribution_curve.ys@),
                x_desc: Some("Relative change (%)"@),
                y_desc: Some("Density (a.u.)"@),
                x_ticks: Ticks::Pretty,
                y_ticks: Ticks::Pretty,
                mesh: Mesh::Hidden,
                series: seq![
                    noise_series(noise_threshold, fitted(distribution_curve.ys@)),
                    density_series(distribution_curve),
                    interval_series(confidence_interval),
                    estimate_series(point_estimate),
                ],
                legend: Some(Corner::UpperRight),
            },
        ),
    }
}

} // verus!
