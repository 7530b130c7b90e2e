//! The chart primitives of a rendering backend, and the backend of this
//! library.

use crate::chart::{
    outcome, with_unit, Chart, Color, Corner, Element, Frame, Glyph, Label, Legend, Mesh, Scale,
    Series, Shape, Style, Ticks, POINT_SIZE,
};
use crate::context::BenchmarkId;
use crate::error::PlotError;
use crate::geometry::{
    canvas, segment, zip, FilledCurve, Line, LineCurve, Point, Points, RectangleArea, Size,
};
use crate::laws::{
    lemma_abs_distribution_shows_curve, lemma_base_run_is_optional,
    lemma_iteration_times_shows_both, lemma_regression_comparison_shows_both,
    lemma_regression_shows_samples, lemma_rel_distribution_shows_curve,
};
use crate::plans::{
    abs_distribution_plan, density_series, distribution_caption, estimate_series, fit_series,
    interval_series, iteration_times_plan, noise_series, regression_comparison_plan,
    regression_plan, regression_series, rel_distribution_plan, sample_series, wedge_series,
};
use crate::range::{add_headroom, extent_of, fit_joint, fit_range, Interval};
use vstd::prelude::*;

verus! {

/// The chart primitives: one operation for each kind of statistical chart. A
/// backend either returns the plan that the contract names, or says that it
/// does not support the chart.
pub trait PlottingBackend {
    /// Plans the bootstrap distribution of a statistic, in the unit `x_unit`.
    fn abs_distribution(
        &mut self,
        id: &BenchmarkId,
        statistic: &str,
        size: Option<Size>,
        x_unit: &str,
        distribution_curve: LineCurve,
        bootstrap_area: FilledCurve,
        point_estimate: Line,
    ) -> (r: Result<Chart, PlotError>)
        ensures
            r == Err::<Chart, PlotError>(PlotError::Unsupported) || outcome(r)
                == abs_distribution_plan(
                id.title@,
                statistic@,
                size,
                x_unit@,
                distribution_curve,
                bootstrap_area,
                point_estimate,
            ),
    ;

    /// Plans the distribution of the relative change of a statistic.
    fn rel_distribution(
        &mut self,
        id: &BenchmarkId,
        statistic: &str,
        size: Option<Size>,
        distribution_curve: LineCurve,
        confidence_interval: FilledCurve,
        point_estimate: Line,
        noise_threshold: RectangleArea,
    ) -> (r: Result<Chart, PlotError>)
        ensures
            r == Err::<Chart, PlotError>(PlotError::Unsupported) || outcome(r)
                == rel_distribution_plan(
                id.title@,
                statistic@,
                size,
                distribution_curve,
                confidence_interval,
                point_estimate,
                noise_threshold,
            ),
    ;

    /// Plans the scatter of the time that each iteration took, with the base
    /// run beside the current one where there is one.
    fn iteration_times(
        &mut self,
        id: &BenchmarkId,
        size: Option<Size>,
        unit: &str,
        is_thumbnail: bool,
        current_times: Points,
        base_times: Option<Points>,
    ) -> (r: Result<Chart, PlotError>)
        ensures
            r == Err::<Chart, PlotError>(PlotError::Unsupported) || outcome(r)
                == iteration_times_plan(
                id.title@,
                size,
                unit@,
                is_thumbnail,
                current_times,
                base_times,
            ),
    ;

    /// Plans the regression of one run: its samples, the fitted line and the
    /// confidence band of the fit.
    fn regression(
        &mut self,
        id: &BenchmarkId,
        size: Option<Size>,
        is_thumbnail: bool,
        x_label: &str,
        x_scale: Scale,
        unit: &str,
        sample: Points,
        regression: Line,
        confidence_interval: FilledCurve,
    ) -> (r: Result<Chart, PlotError>)
        ensures
            r == Err::<Chart, PlotError>(PlotError::Unsupported) || outcome(r) == regression_plan(
                id.title@,
                size,
                is_thumbnail,
                x_label@,
                x_scale,
                unit@,
                sample,
                regression,
                confidence_interval,
            ),
    ;

    /// Plans the comparison of two regressions, the base run against the
    /// current one.
    fn regression_comparison(
        &mut self,
        id: &BenchmarkId,
        size: Option<Size>,
        is_thumbnail: bool,
        x_label: &str,
        x_scale: Scale,
        unit: &str,
        current_regression: Line,
        current_confidence_interval: FilledCurve,
        base_regression: Line,
        base_confidence_interval: FilledCurve,
    ) -> (r: Result<Chart, PlotError>)
        ensures
            r == Err::<Chart, PlotError>(PlotError::Unsupported) || outcome(r)
                == regression_comparison_plan(
                id.title@,
                size,
                is_thumbnail,
                x_label@,
                x_scale,
                unit@,
                current_regression,
                current_confidence_interval,
                base_regression,
                base_confidence_interval,
            ),
    ;

    /// Returns when every chart asked for so far has been drawn.
    fn wait(&mut self);
}

/// The backend of the report. It keeps no state between renders.
#[derive(Default)]
pub struct PlottersBackend;

/// A regression as one series: its line, and over it the wedge of its band.
/// A band that has no wedge has no series.
fn draw_regression(line: Line, band: &FilledCurve, color: Color, label: Label) -> (r: Result<
    Series,
    PlotError,
>)
    ensures
        match r {
            Ok(s) => band.wedge_defect() is None && s@ == regression_series(
                line,
                *band,
                color,
                label,
            ),
            Err(e) => band.wedge_defect() == Some(e),
        },
{
    let corners = match band.wedge() {
        Ok(corners) => corners,
        Err(e) => {
            return Err(e);
        },
    };
    Ok(
        Series::pair(
            Element { shape: Shape::Path(segment(line)), style: Style::stroke(color) },
            Element { shape: Shape::Polygon(corners), style: Style::fill(color, 25, 1) },
            Legend { label, glyph: Glyph::Stroke, style: Style::fill(color, 100, 2) },
        ),
    )
}

/// The fitted line of a regression.
fn draw_fit(line: Line) -> (s: Series)
    ensures
        s@ == fit_series(line),
{
    Series::single(
        Shape::Path(segment(line)),
        Style::stroke(Color::DarkBlue),
        Legend {
            label: Label::LinearRegression,
            glyph: Glyph::Stroke,
            style: Style::fill(Color::DarkBlue, 100, 2),
        },
    )
}

/// The confidence band of a regression. A band that has no wedge has no
/// series.
fn draw_wedge(band: &FilledCurve) -> (r: Result<Series, PlotError>)
    ensures
        match r {
            Ok(s) => band.wedge_defect() is None && s@ == wedge_series(*band),
            Err(e) => band.wedge_defect() == Some(e),
        },
{
    let corners = match band.wedge() {
        Ok(corners) => corners,
        Err(e) => {
            return Err(e);
        },
    };
    Ok(
        Series::single(
            Shape::Polygon(corners),
            Style::fill(Color::DarkBlue, 25, 1),
            Legend {
                label: Label::ConfidenceInterval,
                glyph: Glyph::Patch,
                style: Style::fill(Color::DarkBlue, 25, 1),
            },
        ),
    )
}

/// The samples of a run as markers of one colour.
fn draw_samples(points: &Points, color: Color, label: Label) -> (s: Series)
    ensures
        s@ == sample_series(*points, color, label),
{
    Series::single(
        Shape::Markers { points: zip(points.xs, points.ys), radius: POINT_SIZE },
        Style::fill(color, 100, 1),
        Legend { label, glyph: Glyph::Dot, style: Style::fill(color, 100, 1) },
    )
}

/// The density curve of a distribution.
fn draw_density(curve: &LineCurve) -> (s: Series)
    ensures
        s@ == density_series(*curve),
{
    Series::single(
        Shape::Path(zip(curve.xs, curve.ys)),
        Style::stroke(Color::DarkBlue),
        Legend {
            label: Label::BootstrapDistribution,
            glyph: Glyph::Stroke,
            style: Style::stroke(Color::DarkBlue),
        },
    )
}

/// The confidence interval of a distribution.
fn draw_interval(band: &FilledCurve) -> (s: Series)
    ensures
        s@ == interval_series(*band),
{
    Series::single(
        Shape::Area { points: zip(band.xs, band.ys_1), baseline: 0 },
        Style::fill(Color::DarkBlue, 25, 3),
        Legend {
            label: Label::ConfidenceInterval,
            glyph: Glyph::Patch,
            style: Style::fill(Color::DarkBlue, 25, 1),
        },
    )
}

/// The point estimate of a distribution.
fn draw_estimate(estimate: Line) -> (s: Series)
    ensures
        s@ == estimate_series(estimate),
{
    Series::single(
        Shape::Path(segment(estimate)),
        Style::fill(Color::DarkBlue, 100, 3),
        Legend {
            label: Label::PointEstimate,
            glyph: Glyph::Stroke,
            style: Style::stroke(Color::DarkBlue),
        },
    )
}

/// The noise threshold over the whole height of the plot.
fn draw_noise(noise: RectangleArea, y_range: Interval) -> (s: Series)
    ensures
        s@ == noise_series(noise, y_range),
{
    Series::single(
        Shape::Rectangle {
            from: Point { x: noise.left, y: y_range.start },
            to: Point { x: noise.right, y: y_range.end },
        },
        Style::fill(Color::DarkRed, 10, 1),
        Legend {
            label: Label::NoiseThreshold,
            glyph: Glyph::Patch,
            style: Style::fill(Color::DarkRed, 25, 1),
        },
    )
}

/// The title of a distribution: the benchmark, a colon, the statistic.
fn caption_distribution(title: &str, statistic: &str) -> (s: String)
    ensures
        s@ == distribution_caption(title@, statistic@),
{
    let mut s = String::from_str(title);
    s.append(":");
    s.append(statistic);
    s
}

impl PlottingBackend for PlottersBackend {
    fn abs_distribution(
        &mut self,
        id: &BenchmarkId,
        statistic: &str,
        size: Option<Size>,
        x_unit: &str,
        distribution_curve: LineCurve,
        bootstrap_area: FilledCurve,
        point_estimate: Line,
    ) -> (r: Result<Chart, PlotError>)
        ensures
            outcome(r) == abs_distribution_plan(
                id.title@,
                statistic@,
                size,
                x_unit@,
                distribution_curve,
                bootstrap_area,
                point_estimate,
            ),
            r matches Ok(chart) ==> chart@.decorated() && chart.x_range.brackets(
                distribution_curve.xs@,
            ) && chart.y_range.brackets(distribution_curve.ys@),
            *final(self) == *old(self),
    {
        match distribution_curve.check() {
            Err(e) => {
                return Err(e);
            },
            Ok(()) => {},
        }
        match bootstrap_area.check() {
            Err(e) => {
                return Err(e);
            },
            Ok(()) => {},
        }
        let x_range = match fit_range(distribution_curve.xs) {
            Ok(range) => range,
            Err(e) => {
                return Err(e);
            },
        };
        let y_range = match fit_range(distribution_curve.ys) {
            Ok(range) => add_headroom(range),
            Err(e) => {
                return Err(e);
            },
        };
        let mut series: Vec<Series> = Vec::new();
        series.push(draw_density(&distribution_curve));
        series.push(draw_interval(&bootstrap_area));
        series.push(draw_estimate(point_estimate));
        let chart = Chart {
            canvas: canvas(size),
            frame: Frame::new(),
            caption: Some(caption_distribution(id.as_title(), statistic)),
            x_range,
            y_range,
            x_desc: Some(with_unit("Average time (", x_unit)),
            y_desc: Some(String::from_str("Density (a.u.)")),
            x_ticks: Ticks::Pretty,
            y_ticks: Ticks::Pretty,
            mesh: Mesh::Hidden,
            series,
            legend: Some(Corner::UpperRight),
        };
        proof {
            let plan = abs_distribution_plan(
                id.title@,
                statistic@,
                size,
                x_unit@,
                distribution_curve,
                bootstrap_area,
                point_estimate,
            );
            assert(chart@.series =~= plan->Ok_0.series);
            lemma_abs_distribution_shows_curve(
                id.title@,
                statistic@,
                size,
                x_unit@,
                distribution_curve,
                bootstrap_area,
                point_estimate,
            );
        }
        Ok(chart)
    }

    fn rel_distribution(
        &mut self,
        id: &BenchmarkId,
        statistic: &str,
        size: Option<Size>,
        distribution_curve: LineCurve,
        confidence_interval: FilledCurve,
        point_estimate: Line,
        noise_threshold: RectangleArea,
    ) -> (r: Result<Chart, PlotError>)
        ensures
            outcome(r) == rel_distribution_plan(
                id.title@,
                statistic@,
                size,
                distribution_curve,
                confidence_interval,
                point_estimate,
                noise_threshold,
            ),
            r matches Ok(chart) ==> chart@.decorated() && chart.x_range.brackets(
                distribution_curve.xs@,
            ) && chart.y_range.brackets(distribution_curve.ys@),
            *final(self) == *old(self),
    {
        match distribution_curve.check() {
            Err(e) => {
                return Err(e);
            },
            Ok(()) => {},
        }
        match confidence_interval.check() {
            Err(e) => {
                return Err(e);
            },
            Ok(()) => {},
        }
        let x_range = match extent_of(distribution_curve.xs) {
            Ok(range) => range,
            Err(e) => {
                return Err(e);
            },
        };
        let y_range = match fit_range(distribution_curve.ys) {
            Ok(range) => range,
            Err(e) => {
                return Err(e);
            },
        };
        let mut series: Vec<Series> = Vec::new();
        series.push(draw_noise(noise_threshold, y_range));
        series.push(draw_density(&distribution_curve));
        series.push(draw_interval(&confidence_interval));
        series.push(draw_estimate(point_estimate));
        let chart = Chart {
            canvas: canvas(size),
            frame: Frame::new(),
            caption: Some(caption_distribution(id.as_title(), statistic)),
            x_range,
            y_range,
            x_desc: Some(String::from_str("Relative change (%)")),
            y_desc: Some(String::from_str("Density (a.u.)")),
            x_ticks: Ticks::Pretty,
            y_ticks: Ticks::Pretty,
            mesh: Mesh::Hidden,
            series,
            legend: Some(Corner::UpperRight),
        };
        proof {
            let plan = rel_distribution_plan(
                id.title@,
                statistic@,
                size,
                distribution_curve,
                confidence_interval,
                point_estimate,
                noise_threshold,
            );
            assert(chart@.series =~= plan->Ok_0.series);
            lemma_rel_distribution_shows_curve(
                id.title@,
                statistic@,
                size,
                distribution_curve,
                confidence_interval,
                point_estimate,
                noise_threshold,
            );
        }
        Ok(chart)
    }

    fn iteration_times(
        &mut self,
        id: &BenchmarkId,
        size: Option<Size>,
        unit: &str,
        is_thumbnail: bool,
        current_times: Points,
        base_times: Option<Points>,
    ) -> (r: Result<Chart, PlotError>)
        ensures
            outcome(r) == iteration_times_plan(
                id.title@,
                size,
                unit@,
                is_thumbnail,
                current_times,
                base_times,
            ),
            r matches Ok(chart) ==> {
                &&& is_thumbnail ==> chart@.undecorated()
                &&& !is_thumbnail ==> chart@.decorated()
                &&& base_times is None ==> chart@.labels() == seq![Label::Current]
                &&& base_times is Some ==> chart@.labels() == seq![Label::Current, Label::Base]
                &&& chart.y_range.brackets(current_times.ys@)
                &&& base_times matches Some(base) ==> chart.y_range.brackets(base.ys@)
            },
            *final(self) == *old(self),
    {
        match current_times.check() {
            Err(e) => {
                return Err(e);
            },
            Ok(()) => {},
        }
        let current_x = match extent_of(current_times.xs) {
            Ok(range) => range,
            Err(e) => {
                return Err(e);
            },
        };
        let mut series: Vec<Series> = Vec::new();
        series.push(draw_samples(&current_times, Color::DarkBlue, Label::Current));
        let (x_range, y_range) = match &base_times {
            Some(base) => {
                match base.check() {
                    Err(e) => {
                        return Err(e);
                    },
                    Ok(()) => {},
                }
                let base_x = match extent_of(base.xs) {
                    Ok(range) => range,
                    Err(e) => {
                        return Err(e);
                    },
                };
                let max_x = if current_x.end >= base_x.end {
                    current_x.end
                } else {
                    base_x.end
                };
                let y_range = match fit_joint(current_times.ys, base.ys) {
                    Ok(range) => range,
                    Err(e) => {
                        return Err(e);
                    },
                };
                series.push(draw_samples(base, Color::DarkRed, Label::Base));
                (Interval { start: 1, end: max_x }, y_range)
            },
            None => {
                let y_range = match fit_range(current_times.ys) {
                    Ok(range) => range,
                    Err(e) => {
                        return Err(e);
                    },
                };
                (Interval { start: 1, end: current_x.end }, y_range)
            },
        };
        let caption = if is_thumbnail {
            None
        } else {
            Some(String::from_str(id.as_title()))
        };
        let legend = if is_thumbnail {
            None
        } else {
            Some(Corner::UpperLeft)
        };
        let chart = Chart {
            canvas: canvas(size),
            frame: Frame::new(),
            caption,
            x_range,
            y_range,
            x_desc: None,
            y_desc: Some(with_unit("Average Iteration Time (", unit)),
            x_ticks: Ticks::Pretty,
            y_ticks: Ticks::Plain,
            mesh: Mesh::Coarse,
            series,
            legend,
        };
        proof {
            let plan = iteration_times_plan(
                id.title@,
                size,
                unit@,
                is_thumbnail,
                current_times,
                base_times,
            );
            assert(chart@.series =~= plan->Ok_0.series);
            lemma_base_run_is_optional(
                id.title@,
                size,
                unit@,
                is_thumbnail,
                current_times,
                base_times,
            );
            lemma_iteration_times_shows_both(
                id.title@,
                size,
                unit@,
                is_thumbnail,
                current_times,
                base_times,
            );
        }
        Ok(chart)
    }

    fn regression(
        &mut self,
        id: &BenchmarkId,
        size: Option<Size>,
        is_thumbnail: bool,
        x_label: &str,
        x_scale: Scale,
        unit: &str,
        sample: Points,
        regression: Line,
        confidence_interval: FilledCurve,
    ) -> (r: Result<Chart, PlotError>)
        ensures
            outcome(r) == regression_plan(
                id.title@,
                size,
                is_thumbnail,
                x_label@,
                x_scale,
                unit@,
                sample,
                regression,
                confidence_interval,
            ),
            r matches Ok(chart) ==> {
                &&& is_thumbnail ==> chart@.undecorated()
                &&& !is_thumbnail ==> chart@.decorated()
                &&& chart.x_range.brackets(sample.xs@)
                &&& chart.y_range.brackets(sample.ys@)
            },
            *final(self) == *old(self),
    {
        match sample.check() {
            Err(e) => {
                return Err(e);
            },
            Ok(()) => {},
        }
        let band = match draw_wedge(&confidence_interval) {
            Ok(series) => series,
            Err(e) => {
                return Err(e);
            },
        };
        let x_range = match fit_range(sample.xs) {
            Ok(range) => range,
            Err(e) => {
                return Err(e);
            },
        };
        let y_range = match fit_range(sample.ys) {
            Ok(range) => range,
            Err(e) => {
                return Err(e);
            },
        };
        let caption = if is_thumbnail {
            None
        } else {
            Some(String::from_str(id.as_title()))
        };
        let legend = if is_thumbnail {
            None
        } else {
            Some(Corner::UpperLeft)
        };
        let mut series: Vec<Series> = Vec::new();
        series.push(draw_samples(&sample, Color::DarkBlue, Label::Sample));
        series.push(draw_fit(regression));
        series.push(band);
        let chart = Chart {
            canvas: canvas(size),
            frame: Frame::new(),
            caption,
            x_range,
            y_range,
            x_desc: Some(String::from_str(x_label)),
            y_desc: Some(with_unit("Total sample time (", unit)),
            x_ticks: Ticks::Scaled(x_scale),
            y_ticks: Ticks::Plain,
            mesh: Mesh::Coarse,
            series,
            legend,
        };
        proof {
            let plan = regression_plan(
                id.title@,
                size,
                is_thumbnail,
                x_label@,
                x_scale,
                unit@,
                sample,
                regression,
                confidence_interval,
            );
            assert(chart@.series =~= plan->Ok_0.series);
            lemma_regression_shows_samples(
                id.title@,
                size,
                is_thumbnail,
                x_label@,
                x_scale,
                unit@,
                sample,
                regression,
                confidence_interval,
            );
        }
        Ok(chart)
    }

    fn regression_comparison(
        &mut self,
        id: &BenchmarkId,
        size: Option<Size>,
        is_thumbnail: bool,
        x_label: &str,
        x_scale: Scale,
        unit: &str,
        current_regression: Line,
        current_confidence_interval: FilledCurve,
        base_regression: Line,
        base_confidence_interval: FilledCurve,
    ) -> (r: Result<Chart, PlotError>)
        ensures
            outcome(r) == regression_comparison_plan(
                id.title@,
                size,
                is_thumbnail,
                x_label@,
                x_scale,
                unit@,
                current_regression,
                current_confidence_interval,
                base_regression,
                base_confidence_interval,
            ),
            r matches Ok(chart) ==> {
                &&& is_thumbnail ==> chart@.undecorated()
                &&& !is_thumbnail ==> chart@.decorated()
                &&& chart.y_range.end >= current_regression.end.y
                &&& chart.y_range.end >= base_regression.end.y
                &&& chart@.labels() == seq![Label::BaseSample, Label::NewSample]
            },
            *final(self) == *old(self),
    {
        let base = match draw_regression(
            base_regression,
            &base_confidence_interval,
            Color::DarkRed,
            Label::BaseSample,
        ) {
            Ok(series) => series,
            Err(e) => {
                return Err(e);
            },
        };
        let current = match draw_regression(
            current_regression,
            &current_confidence_interval,
            Color::DarkBlue,
            Label::NewSample,
        ) {
            Ok(series) => series,
            Err(e) => {
                return Err(e);
            },
        };
        let y_max = if current_regression.end.y >= base_regression.end.y {
            current_regression.end.y
        } else {
            base_regression.end.y
        };
        let caption = if is_thumbnail {
            None
        } else {
            Some(String::from_str(id.as_title()))
        };
        let legend = if is_thumbnail {
            None
        } else {
            Some(Corner::UpperLeft)
        };
        let mut series: Vec<Series> = Vec::new();
        series.push(base);
        series.push(current);
        let chart = Chart {
            canvas: canvas(size),
            frame: Frame::new(),
            caption,
            x_range: Interval { start: 0, end: current_regression.end.x },
            y_range: Interval { start: 0, end: y_max },
            x_desc: Some(String::from_str(x_label)),
            y_desc: Some(with_unit("Total sample time (", unit)),
            x_ticks: Ticks::Scaled(x_scale),
            y_ticks: Ticks::Plain,
            mesh: Mesh::Coarse,
            series,
            legend,
        };
        proof {
            let plan = regression_comparison_plan(
                id.title@,
                size,
                is_thumbnail,
                x_label@,
                x_scale,
                unit@,
                current_regression,
                current_confidence_interval,
                base_regression,
                base_confidence_interval,
            );
            assert(chart@.series =~= plan->Ok_0.series);
            lemma_regression_comparison_shows_both(
                id.title@,
                size,
                is_thumbnail,
                x_label@,
                x_scale,
                unit@,
                current_regression,
                current_confidence_interval,
                base_regression,
                base_confidence_interval,
            );
        }
        Ok(chart)
    }

    /// Every chart is complete when the call that asked for it returns, so
    /// there is nothing to wait for.
    fn wait(&mut self)
        ensures
            *final(self) == *old(self),
    {
        crate::plotter::Plotter::wait(self)
    }
}

} // verus!
