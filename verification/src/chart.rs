//! The plan of a chart: everything a drawing backend needs in order to
//! put the chart on a canvas, and nothing that depends on the backend.

use crate::error::PlotError;
use crate::geometry::{Canvas, Point};
use crate::range::Interval;
use vstd::prelude::*;

verus! {

/// The radius in pixels of the marker drawn for one sample.
pub const POINT_SIZE: u32 = 3;

/// The colours of the report.
#[derive(Clone, Copy, PartialEq, Eq, Debug, Structural)]
pub enum Color {
    DarkBlue,
    DarkOrange,
    DarkRed,
}

impl Color {
    /// The red, green and blue parts of the colour.
    pub open spec fn components(self) -> (u8, u8, u8) {
        match self {
            Color::DarkBlue => (31u8, 120u8, 180u8),
            Color::DarkOrange => (255u8, 127u8, 0u8),
            Color::DarkRed => (227u8, 26u8, 28u8),
        }
    }

    /// The red, green and blue parts of the colour.
    pub fn rgb(&self) -> (r: (u8, u8, u8))
        ensures
            r == self.components(),
    {
        match self {
            Color::DarkBlue => (31, 120, 180),
            Color::DarkOrange => (255, 127, 0),
            Color::DarkRed => (227, 26, 28),
        }
    }
}

/// How a shape is painted.
#[derive(Clone, Copy, PartialEq, Eq, Debug, Structural)]
pub struct Style {
    pub color: Color,
    /// The opacity in hundredths: 100 hides what lies below.
    pub opacity: u8,
    /// Whether the inside of the shape is painted, or its outline only.
    pub filled: bool,
    /// The width of the outline in pixels.
    pub stroke_width: u32,
}

impl Style {
    /// The style of a thin opaque outline.
    pub open spec fn outline(color: Color) -> Style {
        Style { color, opacity: 100, filled: false, stroke_width: 1 }
    }

    /// The style of a painted shape of the given opacity and outline.
    pub open spec fn solid(color: Color, opacity: u8, stroke_width: u32) -> Style {
        Style { color, opacity, filled: true, stroke_width }
    }

    /// A thin opaque outline in `color`.
    pub fn stroke(color: Color) -> (s: Style)
        ensures
            s == Style::outline(color),
    {
        Style { color, opacity: 100, filled: false, stroke_width: 1 }
    }

    /// A painted shape in `color`, of the given opacity and outline.
    pub fn fill(color: Color, opacity: u8, stroke_width: u32) -> (s: Style)
        ensures
            s == Style::solid(color, opacity, stroke_width),
    {
        Style { color, opacity, filled: true, stroke_width }
    }
}

/// The captions that a legend shows.
#[derive(Clone, Copy, PartialEq, Eq, Debug, Structural)]
pub enum Label {
    BootstrapDistribution,
    ConfidenceInterval,
    PointEstimate,
    NoiseThreshold,
    Current,
    Base,
    Sample,
    LinearRegression,
    BaseSample,
    NewSample,
}

impl Label {
    /// The caption as a sequence of characters.
    pub open spec fn caption(self) -> Seq<char> {
        match self {
            Label::BootstrapDistribution => "Bootstrap distribution"@,
            Label::ConfidenceInterval => "Confidence interval"@,
            Label::PointEstimate => "Point estimate"@,
            Label::NoiseThreshold => "Noise threshold"@,
            Label::Current => "Current"@,
            Label::Base => "Base"@,
            Label::Sample => "Sample"@,
            Label::LinearRegression => "Linear regression"@,
            Label::BaseSample => "Base Sample"@,
            Label::NewSample => "New Sample"@,
        }
    }

    /// The caption as the legend prints it.
    pub fn text(&self) -> (s: &'static str)
        ensures
            s@ == self.caption(),
    {
        match self {
            Label::BootstrapDistribution => "Bootstrap distribution",
            Label::ConfidenceInterval => "Confidence interval",
            Label::PointEstimate => "Point estimate",
            Label::NoiseThreshold => "Noise threshold",
            Label::Current => "Current",
            Label::Base => "Base",
            Label::Sample => "Sample",
            Label::LinearRegression => "Linear regression",
            Label::BaseSample => "Base Sample",
            Label::NewSample => "New Sample",
        }
    }
}

/// The sample of a series that the legend shows beside its caption.
#[derive(Clone, Copy, PartialEq, Eq, Debug, Structural)]
pub enum Glyph {
    /// A horizontal stroke, twenty pixels long.
    Stroke,
    /// A box twenty pixels wide and ten high.
    Patch,
    /// A marker of `POINT_SIZE`, ten pixels in.
    Dot,
}

/// One entry of the legend.
#[derive(Clone, Copy, PartialEq, Eq, Debug, Structural)]
pub struct Legend {
    pub label: Label,
    pub glyph: Glyph,
    pub style: Style,
}

/// The corner of the plot that holds the legend.
#[derive(Clone, Copy, PartialEq, Eq, Debug, Structural)]
pub enum Corner {
    UpperLeft,
    UpperRight,
}

/// The grid behind the series.
#[derive(Clone, Copy, PartialEq, Eq, Debug, Structural)]
pub enum Mesh {
    /// No grid lines.
    Hidden,
    /// The lines at the labelled ticks; the finer lines between them stay
    /// invisible.
    Coarse,
}

/// A factor, as a fraction of two whole numbers.
#[derive(Clone, Copy, PartialEq, Eq, Debug, Structural)]
pub struct Scale {
    pub numerator: u64,
    pub denominator: u64,
}

/// How the values at the ticks of an axis are printed.
#[derive(Clone, Copy, PartialEq, Eq, Debug, Structural)]
pub enum Ticks {
    /// As the backend prints a number.
    Plain,
    /// Shortened to the digits that matter.
    Pretty,
    /// Multiplied by a factor that the coordinates do not carry, then
    /// shortened.
    Scaled(Scale),
}

/// The space around the plot.
#[derive(Clone, Copy, PartialEq, Eq, Debug, Structural)]
pub struct Frame {
    /// The margin on every side, in hundredths of the canvas's shorter side.
    pub margin_percent: u32,
    /// The room for the labels of the vertical axis, in hundredths of the
    /// canvas's width.
    pub left_percent: u32,
    /// The fewest pixels that this room is given.
    pub left_min: u32,
    /// The room for the labels of the horizontal axis, in hundredths of the
    /// canvas's height.
    pub bottom_percent: u32,
    /// The fewest pixels that this room is given.
    pub bottom_min: u32,
    /// The height of the caption's letters in pixels.
    pub caption_size: u32,
}

impl Frame {
    /// The frame of every chart of the report.
    pub open spec fn standard() -> Frame {
        Frame {
            margin_percent: 5,
            left_percent: 5,
            left_min: 60,
            bottom_percent: 5,
            bottom_min: 40,
            caption_size: 20,
        }
    }

    /// The frame of every chart of the report.
    pub fn new() -> (f: Frame)
        ensures
            f == Frame::standard(),
    {
        Frame {
            margin_percent: 5,
            left_percent: 5,
            left_min: 60,
            bottom_percent: 5,
            bottom_min: 40,
            caption_size: 20,
        }
    }
}

/// What is drawn, in the coordinates of the data.
#[derive(PartialEq, Eq, Debug)]
pub enum Shape {
    /// An open path through the points.
    Path(Vec<Point>),
    /// The region between the path through the points and the horizontal
    /// line at `baseline`.
    Area { points: Vec<Point>, baseline: i64 },
    /// The closed region whose corners are the points.
    Polygon(Vec<Point>),
    /// One marker of the given radius at each point.
    Markers { points: Vec<Point>, radius: u32 },
    /// The rectangle with two opposite corners at `from` and `to`.
    Rectangle { from: Point, to: Point },
}

/// A shape with its points as a sequence.
pub enum ShapeView {
    Path(Seq<Point>),
    Area { points: Seq<Point>, baseline: i64 },
    Polygon(Seq<Point>),
    Markers { points: Seq<Point>, radius: u32 },
    Rectangle { from: Point, to: Point },
}

impl View for Shape {
    type V = ShapeView;

    open spec fn view(&self) -> ShapeView {
        match self {
            Shape::Path(points) => ShapeView::Path(points@),
            Shape::Area { points, baseline } => ShapeView::Area {
                points: points@,
                baseline: *baseline,
            },
            Shape::Polygon(points) => ShapeView::Polygon(points@),
            Shape::Markers { points, radius } => ShapeView::Markers {
                points: points@,
                radius: *radius,
            },
            Shape::Rectangle { from, to } => ShapeView::Rectangle { from: *from, to: *to },
        }
    }
}

/// A shape and the style it is painted in.
#[derive(PartialEq, Eq, Debug)]
pub struct Element {
    pub shape: Shape,
    pub style: Style,
}

/// An element with its shape as a view.
pub struct ElementView {
    pub shape: ShapeView,
    pub style: Style,
}

impl View for Element {
    type V = ElementView;

    open spec fn view(&self) -> ElementView {
        ElementView { shape: self.shape@, style: self.style }
    }
}

/// The elements drawn under one entry of the legend, in drawing order.
#[derive(PartialEq, Eq, Debug)]
pub struct Series {
    pub elements: Vec<Element>,
    pub legend: Legend,
}

/// A series with its elements as a sequence of views.
pub struct SeriesView {
    pub elements: Seq<ElementView>,
    pub legend: Legend,
}

impl View for Series {
    type V = SeriesView;

    open spec fn view(&self) -> SeriesView {
        SeriesView { elements: self.elements@.map_values(|e: Element| e@), legend: self.legend }
    }
}

impl SeriesView {
    /// The series that draws one shape.
    pub open spec fn single(shape: ShapeView, style: Style, legend: Legend) -> SeriesView {
        SeriesView { elements: seq![ElementView { shape, style }], legend }
    }

    /// The series that draws a first element and then a second over it.
    pub open spec fn pair(first: ElementView, second: ElementView, legend: Legend) -> SeriesView {
        SeriesView { elements: seq![first, second], legend }
    }
}

impl Series {
    /// A series of one shape.
    pub fn single(shape: Shape, style: Style, legend: Legend) -> (s: Series)
        ensures
            s@ == SeriesView::single(shape@, style, legend),
    {
        let mut elements: Vec<Element> = Vec::new();
        elements.push(Element { shape, style });
        let s = Series { elements, legend };
        assert(s@.elements =~= SeriesView::single(shape@, style, legend).elements);
        s
    }

    /// A series of two elements, the second drawn over the first.
    pub fn pair(first: Element, second: Element, legend: Legend) -> (s: Series)
        ensures
            s@ == SeriesView::pair(first@, second@, legend),
    {
        let mut elements: Vec<Element> = Vec::new();
        elements.push(first);
        elements.push(second);
        let s = Series { elements, legend };
        assert(s@.elements =~= SeriesView::pair(first@, second@, legend).elements);
        s
    }
}

/// The plan of one chart.
#[derive(PartialEq, Eq, Debug)]
pub struct Chart {
    /// The surface to draw on.
    pub canvas: Canvas,
    /// The space around the plot.
    pub frame: Frame,
    /// The title above the plot; a thumbnail has none.
    pub caption: Option<String>,
    /// The range of the horizontal axis.
    pub x_range: Interval,
    /// The range of the vertical axis.
    pub y_range: Interval,
    /// The description below the horizontal axis.
    pub x_desc: Option<String>,
    /// The description beside the vertical axis.
    pub y_desc: Option<String>,
    /// How the ticks of the horizontal axis are printed.
    pub x_ticks: Ticks,
    /// How the ticks of the vertical axis are printed.
    pub y_ticks: Ticks,
    /// The grid behind the series.
    pub mesh: Mesh,
    /// The series, in drawing order: a later one covers an earlier one.
    pub series: Vec<Series>,
    /// Where the legend stands; a thumbnail has none.
    pub legend: Option<Corner>,
}

/// A chart with its texts and series as sequences.
pub struct ChartView {
    pub canvas: Canvas,
    pub frame: Frame,
    pub caption: Option<Seq<char>>,
    pub x_range: Interval,
    pub y_range: Interval,
    pub x_desc: Option<Seq<char>>,
    pub y_desc: Option<Seq<char>>,
    pub x_ticks: Ticks,
    pub y_ticks: Ticks,
    pub mesh: Mesh,
    pub series: Seq<SeriesView>,
    pub legend: Option<Corner>,
}

/// The characters of a text that may be absent.
pub open spec fn text_of(text: Option<String>) -> Option<Seq<char>> {
    match text {
        Some(t) => Some(t@),
        None => None,
    }
}

impl View for Chart {
    type V = ChartView;

    open spec fn view(&self) -> ChartView {
        ChartView {
            canvas: self.canvas,
            frame: self.frame,
            caption: text_of(self.caption),
            x_range: self.x_range,
            y_range: self.y_range,
            x_desc: text_of(self.x_desc),
            y_desc: text_of(self.y_desc),
            x_ticks: self.x_ticks,
            y_ticks: self.y_ticks,
            mesh: self.mesh,
            series: self.series@.map_values(|s: Series| s@),
            legend: self.legend,
        }
    }
}

impl ChartView {
    /// The captions of the legend's entries, in the order of the series.
    pub open spec fn labels(self) -> Seq<Label> {
        self.series.map_values(|s: SeriesView| s.legend.label)
    }

    /// The chart is bare: it shows neither a title nor a legend.
    pub open spec fn undecorated(self) -> bool {
        self.caption is None && self.legend is None
    }

    /// The chart shows a title and a legend.
    pub open spec fn decorated(self) -> bool {
        self.caption is Some && self.legend is Some
    }
}

/// `prefix`, then `unit`, then a closing bracket.
pub open spec fn bracketed(prefix: Seq<char>, unit: Seq<char>) -> Seq<char> {
    prefix + unit + ")"@
}

/// Writes a unit behind the description of an axis: `prefix` ends with the
/// opening bracket, and the closing one is added.
pub fn with_unit(prefix: &str, unit: &str) -> (s: String)
    ensures
        s@ == bracketed(prefix@, unit@),
{
    let mut s = String::from_str(prefix);
    s.append(unit);
    s.append(")");
    s
}

/// What a render returned, with the chart as its view.
pub open spec fn outcome(r: Result<Chart, PlotError>) -> Result<ChartView, PlotError> {
    match r {
        Ok(chart) => Ok(chart@),
        Err(e) => Err(e),
    }
}

} // verus!
