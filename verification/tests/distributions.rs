use bench_charts::backend::{PlottersBackend, PlottingBackend};
use bench_charts::chart::{
    Chart, Color, Corner, Element, Frame, Glyph, Label, Legend, Mesh, Series, Shape, Style, Ticks,
};
use bench_charts::context::BenchmarkId;
use bench_charts::error::PlotError;
use bench_charts::geometry::{
    Canvas, FilledCurve, Line, LineCurve, Point, RectangleArea, Size,
};
use bench_charts::range::Interval;

fn benchmark() -> BenchmarkId {
    BenchmarkId { title: String::from("fib/20") }
}

fn thousandths(values: &[f64]) -> Vec<i64> {
    values.iter().map(|v| (v * 1000.0).round() as i64).collect()
}

fn frame() -> Frame {
    Frame {
        margin_percent: 5,
        left_percent: 5,
        left_min: 60,
        bottom_percent: 5,
        bottom_min: 40,
        caption_size: 20,
    }
}

fn thin(color: Color) -> Style {
    Style { color, opacity: 100, filled: false, stroke_width: 1 }
}

fn painted(color: Color, opacity: u8, stroke_width: u32) -> Style {
    Style { color, opacity, filled: true, stroke_width }
}

fn one(shape: Shape, style: Style, label: Label, glyph: Glyph, legend_style: Style) -> Series {
    Series {
        elements: vec![Element { shape, style }],
        legend: Legend { label, glyph, style: legend_style },
    }
}

fn density(points: Vec<Point>) -> Series {
    one(
        Shape::Path(points),
        thin(Color::DarkBlue),
        Label::BootstrapDistribution,
        Glyph::Stroke,
        thin(Color::DarkBlue),
    )
}

fn interval(points: Vec<Point>) -> Series {
    one(
        Shape::Area { points, baseline: 0 },
        painted(Color::DarkBlue, 25, 3),
        Label::ConfidenceInterval,
        Glyph::Patch,
        painted(Color::DarkBlue, 25, 1),
    )
}

fn estimate(from: Point, to: Point) -> Series {
    one(
        Shape::Path(vec![from, to]),
        painted(Color::DarkBlue, 100, 3),
        Label::PointEstimate,
        Glyph::Stroke,
        thin(Color::DarkBlue),
    )
}

fn labels(chart: &Chart) -> Vec<&'static str> {
    chart.series.iter().map(|s| s.legend.label.text()).collect()
}

#[test]
fn abs_distribution_leaves_headroom_above_the_peak() {
    let xs = thousandths(&[0.0, 1.0, 2.0, 3.0, 4.0]);
    let ys = thousandths(&[0.1, 0.4, 0.9, 0.4, 0.1]);
    let band_xs = thousandths(&[1.0, 2.0, 3.0]);
    let band_upper = thousandths(&[0.4, 0.9, 0.4]);
    let band_lower = thousandths(&[0.0, 0.0, 0.0]);
    let mut backend = PlottersBackend::default();
    let chart = backend
        .abs_distribution(
            &benchmark(),
            "mean",
            None,
            "ns",
            LineCurve { xs: &xs, ys: &ys },
            FilledCurve { xs: &band_xs, ys_1: &band_upper, ys_2: &band_lower },
            Line { start: Point { x: 2000, y: 0 }, end: Point { x: 2000, y: 900 } },
        )
        .unwrap();
    assert!(chart.y_range.end > 900);
    assert!(chart.x_range.start <= 0 && chart.x_range.end >= 4000);
    assert_eq!(chart.x_range, Interval { start: -200, end: 4200 });
    assert_eq!(chart.y_range, Interval { start: 60, end: 1034 });
}

#[test]
fn abs_distribution_plans_the_whole_chart() {
    let mut backend = PlottersBackend::default();
    let chart = backend.abs_distribution(
        &benchmark(),
        "median",
        Some(Size(800, 600)),
        "us",
        LineCurve { xs: &[0, 100, 200], ys: &[10, 50, 10] },
        FilledCurve { xs: &[50, 150], ys_1: &[30, 30], ys_2: &[0, 0] },
        Line { start: Point { x: 100, y: 0 }, end: Point { x: 100, y: 50 } },
    );
    let expected = Chart {
        canvas: Canvas { width: 800, height: 600 },
        frame: frame(),
        caption: Some(String::from("fib/20:median")),
        x_range: Interval { start: -10, end: 210 },
        y_range: Interval { start: 8, end: 58 },
        x_desc: Some(String::from("Average time (us)")),
        y_desc: Some(String::from("Density (a.u.)")),
        x_ticks: Ticks::Pretty,
        y_ticks: Ticks::Pretty,
        mesh: Mesh::Hidden,
        series: vec![
            density(vec![
                Point { x: 0, y: 10 },
                Point { x: 100, y: 50 },
                Point { x: 200, y: 10 },
            ]),
            interval(vec![Point { x: 50, y: 30 }, Point { x: 150, y: 30 }]),
            estimate(Point { x: 100, y: 0 }, Point { x: 100, y: 50 }),
        ],
        legend: Some(Corner::UpperRight),
    };
    assert_eq!(chart, Ok(expected));
}

#[test]
fn abs_distribution_names_its_series() {
    let mut backend = PlottersBackend::default();
    let chart = backend
        .abs_distribution(
            &benchmark(),
            "mean",
            None,
            "ns",
            LineCurve { xs: &[0, 1], ys: &[1, 2] },
            FilledCurve { xs: &[0], ys_1: &[1], ys_2: &[0] },
            Line { start: Point { x: 0, y: 0 }, end: Point { x: 0, y: 1 } },
        )
        .unwrap();
    assert_eq!(labels(&chart), vec!["Bootstrap distribution", "Confidence interval", "Point estimate"]);
    assert_eq!(chart.canvas, Canvas { width: 960, height: 540 });
}

#[test]
fn abs_distribution_rejects_bad_input() {
    let mut backend = PlottersBackend::default();
    let line = Line { start: Point { x: 0, y: 0 }, end: Point { x: 0, y: 1 } };
    let good_band = FilledCurve { xs: &[0], ys_1: &[1], ys_2: &[0] };
    let id = benchmark();
    assert_eq!(
        backend.abs_distribution(&id, "mean", None, "ns", LineCurve { xs: &[], ys: &[] }, good_band, line),
        Err(PlotError::EmptySeries)
    );
    assert_eq!(
        backend.abs_distribution(&id, "mean", None, "ns", LineCurve { xs: &[1, 2], ys: &[1] }, good_band, line),
        Err(PlotError::LengthMismatch)
    );
    assert_eq!(
        backend.abs_distribution(
            &id,
            "mean",
            None,
            "ns",
            LineCurve { xs: &[1, 2], ys: &[1, 2] },
            FilledCurve { xs: &[], ys_1: &[], ys_2: &[] },
            line
        ),
        Err(PlotError::EmptySeries)
    );
    assert_eq!(
        backend.abs_distribution(
            &id,
            "mean",
            None,
            "ns",
            LineCurve { xs: &[1, 2], ys: &[1] },
            FilledCurve { xs: &[], ys_1: &[], ys_2: &[] },
            line
        ),
        Err(PlotError::LengthMismatch)
    );
}

#[test]
fn rel_distribution_plans_the_whole_chart() {
    let mut backend = PlottersBackend::default();
    let chart = backend.rel_distribution(
        &benchmark(),
        "mean",
        None,
        LineCurve { xs: &[-300, 0, 500], ys: &[0, 400, 0] },
        FilledCurve { xs: &[-100, 100], ys_1: &[200, 200], ys_2: &[0, 0] },
        Line { start: Point { x: 20, y: 0 }, end: Point { x: 20, y: 400 } },
        RectangleArea { left: -50, right: 50 },
    );
    let expected = Chart {
        canvas: Canvas { width: 960, height: 540 },
        frame: frame(),
        caption: Some(String::from("fib/20:mean")),
        x_range: Interval { start: -300, end: 500 },
        y_range: Interval { start: -20, end: 420 },
        x_desc: Some(String::from("Relative change (%)")),
        y_desc: Some(String::from("Density (a.u.)")),
        x_ticks: Ticks::Pretty,
        y_ticks: Ticks::Pretty,
        mesh: Mesh::Hidden,
        series: vec![
            one(
                Shape::Rectangle { from: Point { x: -50, y: -20 }, to: Point { x: 50, y: 420 } },
                painted(Color::DarkRed, 10, 1),
                Label::NoiseThreshold,
                Glyph::Patch,
                painted(Color::DarkRed, 25, 1),
            ),
            density(vec![
                Point { x: -300, y: 0 },
                Point { x: 0, y: 400 },
                Point { x: 500, y: 0 },
            ]),
            interval(vec![Point { x: -100, y: 200 }, Point { x: 100, y: 200 }]),
            estimate(Point { x: 20, y: 0 }, Point { x: 20, y: 400 }),
        ],
        legend: Some(Corner::UpperRight),
    };
    assert_eq!(chart, Ok(expected));
}

#[test]
fn rel_distribution_draws_the_noise_threshold_beneath() {
    let mut backend = PlottersBackend::default();
    let chart = backend
        .rel_distribution(
            &benchmark(),
            "mean",
            None,
            LineCurve { xs: &[5, -5], ys: &[1, 2] },
            FilledCurve { xs: &[0], ys_1: &[1], ys_2: &[0] },
            Line { start: Point { x: 0, y: 0 }, end: Point { x: 0, y: 1 } },
            RectangleArea { left: -1, right: 1 },
        )
        .unwrap();
    assert_eq!(
        labels(&chart),
        vec!["Noise threshold", "Bootstrap distribution", "Confidence interval", "Point estimate"]
    );
    assert_eq!(chart.x_range, Interval { start: -5, end: 5 });
    assert_eq!(chart.y_range, Interval { start: 0, end: 3 });
}

#[test]
fn rel_distribution_rejects_bad_input() {
    let mut backend = PlottersBackend::default();
    let line = Line { start: Point { x: 0, y: 0 }, end: Point { x: 0, y: 1 } };
    let noise = RectangleArea { left: -1, right: 1 };
    let id = benchmark();
    assert_eq!(
        backend.rel_distribution(
            &id,
            "mean",
            None,
            LineCurve { xs: &[], ys: &[] },
            FilledCurve { xs: &[0], ys_1: &[1], ys_2: &[0] },
            line,
            noise
        ),
        Err(PlotError::EmptySeries)
    );
    assert_eq!(
        backend.rel_distribution(
            &id,
            "mean",
            None,
            LineCurve { xs: &[1], ys: &[1] },
            FilledCurve { xs: &[0], ys_1: &[1, 2], ys_2: &[0] },
            line,
            noise
        ),
        Err(PlotError::LengthMismatch)
    );
}

#[test]
fn distributions_repeat() {
    let mut backend = PlottersBackend::default();
    let xs = vec![0, 10, 20];
    let ys = vec![1, 9, 1];
    let line = Line { start: Point { x: 10, y: 0 }, end: Point { x: 10, y: 9 } };
    let first = backend.abs_distribution(
        &benchmark(),
        "mean",
        Some(Size(640, 480)),
        "ns",
        LineCurve { xs: &xs, ys: &ys },
        FilledCurve { xs: &xs, ys_1: &ys, ys_2: &ys },
        line,
    );
    let again_xs = xs.clone();
    let again_ys = ys.clone();
    let second = backend.abs_distribution(
        &benchmark(),
        "mean",
        Some(Size(640, 480)),
        "ns",
        LineCurve { xs: &again_xs, ys: &again_ys },
        FilledCurve { xs: &again_xs, ys_1: &again_ys, ys_2: &again_ys },
        line,
    );
    assert!(first.is_ok());
    assert_eq!(first, second);
}
