//! The values a chart is planned from: its size in pixels, and the curves,
//! bands, point sets and segments that the statistics hand over.

use crate::error::PlotError;
use vstd::prelude::*;

verus! {

/// A width and a height in pixels.
#[derive(Clone, Copy, PartialEq, Eq, Debug, Structural)]
pub struct Size(pub usize, pub usize);

/// The width of a chart whose caller names no size.
pub const DEFAULT_WIDTH: usize = 960;

/// The height of a chart whose caller names no size.
pub const DEFAULT_HEIGHT: usize = 540;

impl Default for Size {
    /// The size of a chart whose caller names none.
    fn default() -> (r: Size)
        ensures
            r == Size(DEFAULT_WIDTH, DEFAULT_HEIGHT),
    {
        Size(DEFAULT_WIDTH, DEFAULT_HEIGHT)
    }
}

impl From<Size> for (u32, u32) {
    fn from(other: Size) -> (r: (u32, u32)) {
        let Size(width, height) = other;
        (#[verifier::truncate] (width as u32), #[verifier::truncate] (height as u32))
    }
}

impl vstd::std_specs::convert::FromSpecImpl<Size> for (u32, u32) {
    open spec fn obeys_from_spec() -> bool {
        true
    }

    open spec fn from_spec(other: Size) -> (u32, u32) {
        (other.0 as u32, other.1 as u32)
    }
}

/// The surface that a chart is drawn on, in pixels.
#[derive(Clone, Copy, PartialEq, Eq, Debug, Structural)]
pub struct Canvas {
    pub width: u32,
    pub height: u32,
}

/// The canvas for a requested size: of that size, or of the default size where
/// none was requested.
pub open spec fn canvas_of(size: Option<Size>) -> Canvas {
    match size {
        Some(s) => Canvas { width: s.0 as u32, height: s.1 as u32 },
        None => Canvas { width: DEFAULT_WIDTH as u32, height: DEFAULT_HEIGHT as u32 },
    }
}

/// The canvas that a chart of the requested size is drawn on.
pub fn canvas(size: Option<Size>) -> (r: Canvas)
    ensures
        r == canvas_of(size),
{
    let (width, height) = match size {
        Some(s) => <(u32, u32)>::from(s),
        None => <(u32, u32)>::from(Size::default()),
    };
    Canvas { width, height }
}

/// A position in the coordinates of the data.
#[derive(Clone, Copy, PartialEq, Eq, Debug, Structural)]
pub struct Point {
    pub x: i64,
    pub y: i64,
}

/// A straight segment from `start` to `end`.
#[derive(Clone, Copy, PartialEq, Eq, Debug, Structural)]
pub struct Line {
    pub start: Point,
    pub end: Point,
}

/// A band along one axis, from `left` to `right`, over the whole of the other.
#[derive(Clone, Copy, PartialEq, Eq, Debug, Structural)]
pub struct RectangleArea {
    pub left: i64,
    pub right: i64,
}

/// A curve through the samples `(xs[i], ys[i])`, in this order.
#[derive(Clone, Copy, Debug)]
pub struct LineCurve<'a> {
    pub xs: &'a [i64],
    pub ys: &'a [i64],
}

/// A band between the boundaries `ys_1` above and `ys_2` below at each of `xs`.
#[derive(Clone, Copy, Debug)]
pub struct FilledCurve<'a> {
    pub xs: &'a [i64],
    pub ys_1: &'a [i64],
    pub ys_2: &'a [i64],
}

/// Samples `(xs[i], ys[i])` in no particular order.
#[derive(Clone, Copy, Debug)]
pub struct Points<'a> {
    pub xs: &'a [i64],
    pub ys: &'a [i64],
}

/// What is wrong with paired sequences that a range is fitted to: they differ
/// in length, or they are empty.
pub open spec fn paired_defect(xs: Seq<i64>, ys: Seq<i64>) -> Option<PlotError> {
    if xs.len() != ys.len() {
        Some(PlotError::LengthMismatch)
    } else if xs.len() == 0 {
        Some(PlotError::EmptySeries)
    } else {
        None
    }
}

/// Tests that `xs` and `ys` pair up and hold a sample.
pub fn check_paired(xs: &[i64], ys: &[i64]) -> (r: Result<(), PlotError>)
    ensures
        match paired_defect(xs@, ys@) {
            Some(e) => r == Err::<(), PlotError>(e),
            None => r == Ok::<(), PlotError>(()),
        },
{
    if xs.len() != ys.len() {
        Err(PlotError::LengthMismatch)
    } else if xs.len() == 0 {
        Err(PlotError::EmptySeries)
    } else {
        Ok(())
    }
}

impl<'a> LineCurve<'a> {
    /// The sequences pair up and hold at least one sample.
    pub open spec fn wf(self) -> bool {
        self.defect() is None
    }

    /// What keeps the curve from being drawn, if anything does.
    pub open spec fn defect(self) -> Option<PlotError> {
        paired_defect(self.xs@, self.ys@)
    }

    /// Tests the curve, and names its defect.
    pub fn check(&self) -> (r: Result<(), PlotError>)
        ensures
            match self.defect() {
                Some(e) => r == Err::<(), PlotError>(e),
                None => r == Ok::<(), PlotError>(()),
            },
    {
        check_paired(self.xs, self.ys)
    }
}

impl<'a> Points<'a> {
    /// The sequences pair up and hold at least one sample.
    pub open spec fn wf(self) -> bool {
        self.defect() is None
    }

    /// What keeps the points from being drawn, if anything does.
    pub open spec fn defect(self) -> Option<PlotError> {
        paired_defect(self.xs@, self.ys@)
    }

    /// Tests the point set, and names its defect.
    pub fn check(&self) -> (r: Result<(), PlotError>)
        ensures
            match self.defect() {
                Some(e) => r == Err::<(), PlotError>(e),
                None => r == Ok::<(), PlotError>(()),
            },
    {
        check_paired(self.xs, self.ys)
    }
}

impl<'a> FilledCurve<'a> {
    /// The three sequences have one length, and hold at least one sample.
    pub open spec fn wf(self) -> bool {
        self.defect() is None
    }

    /// What keeps the band from being drawn, if anything does.
    pub open spec fn defect(self) -> Option<PlotError> {
        if self.xs@.len() != self.ys_1@.len() || self.xs@.len() != self.ys_2@.len() {
            Some(PlotError::LengthMismatch)
        } else if self.xs@.len() == 0 {
            Some(PlotError::EmptySeries)
        } else {
            None
        }
    }

    /// What keeps the band from serving as the band of a regression, whose
    /// wedge is drawn from its first two samples.
    pub open spec fn wedge_defect(self) -> Option<PlotError> {
        if self.defect() is Some {
            self.defect()
        } else if self.xs@.len() < 2 {
            Some(PlotError::ShortBand)
        } else {
            None
        }
    }

    /// Tests the band, and names its defect.
    pub fn check(&self) -> (r: Result<(), PlotError>)
        ensures
            match self.defect() {
                Some(e) => r == Err::<(), PlotError>(e),
                None => r == Ok::<(), PlotError>(()),
            },
    {
        if self.xs.len() != self.ys_1.len() || self.xs.len() != self.ys_2.len() {
            Err(PlotError::LengthMismatch)
        } else if self.xs.len() == 0 {
            Err(PlotError::EmptySeries)
        } else {
            Ok(())
        }
    }

    /// The three corners of the wedge that stands for the band of a
    /// regression: the lower boundary at the first sample, then the upper and
    /// the lower boundary at the second.
    pub open spec fn wedge_corners(self) -> Seq<Point> {
        seq![
            Point { x: self.xs@[0], y: self.ys_2@[0] },
            Point { x: self.xs@[1], y: self.ys_1@[1] },
            Point { x: self.xs@[1], y: self.ys_2@[1] },
        ]
    }

    /// The corners of the wedge, in drawing order; the defect of a band that has
    /// no wedge.
    pub fn wedge(&self) -> (r: Result<Vec<Point>, PlotError>)
        ensures
            match r {
                Ok(corners) => self.wedge_defect() is None && corners@ == self.wedge_corners(),
                Err(e) => self.wedge_defect() == Some(e),
            },
    {
        match self.check() {
            Err(e) => {
                return Err(e);
            },
            Ok(()) => {},
        }
        if self.xs.len() < 2 {
            return Err(PlotError::ShortBand);
        }
        let mut corners: Vec<Point> = Vec::new();
        corners.push(Point { x: self.xs[0], y: self.ys_2[0] });
        corners.push(Point { x: self.xs[1], y: self.ys_1[1] });
        corners.push(Point { x: self.xs[1], y: self.ys_2[1] });
        assert(corners@ =~= self.wedge_corners());
        Ok(corners)
    }
}

/// The number of pairs that two sequences make: the length of the shorter.
pub open spec fn pairs(xs: Seq<i64>, ys: Seq<i64>) -> nat {
    if xs.len() <= ys.len() {
        xs.len()
    } else {
        ys.len()
    }
}

/// The points `(xs[i], ys[i])`, one for each index that both sequences have.
pub open spec fn zipped(xs: Seq<i64>, ys: Seq<i64>) -> Seq<Point> {
    Seq::new(pairs(xs, ys), |i: int| Point { x: xs[i], y: ys[i] })
}

/// Pairs two sequences into points, as far as the shorter one reaches.
pub fn zip(xs: &[i64], ys: &[i64]) -> (r: Vec<Point>)
    ensures
        r@ == zipped(xs@, ys@),
{
    let n: usize = if xs.len() <= ys.len() {
        xs.len()
    } else {
        ys.len()
    };
    let mut points: Vec<Point> = Vec::new();
    let mut i: usize = 0;
    while i < n
        invariant
            n == pairs(xs@, ys@),
            i <= n,
            points@ == zipped(xs@, ys@).subrange(0, i as int),
        decreases n - i,
    {
        points.push(Point { x: xs[i], y: ys[i] });
        assert(points@ =~= zipped(xs@, ys@).subrange(0, i + 1));
        i = i + 1;
    }
    assert(points@ =~= zipped(xs@, ys@));
    points
}

/// The two ends of a segment, as the path that draws it.
pub open spec fn ends(line: Line) -> Seq<Point> {
    seq![line.start, line.end]
}

/// The path that draws a segment.
pub fn segment(line: Line) -> (r: Vec<Point>)
    ensures
        r@ == ends(line),
{
    let mut path: Vec<Point> = Vec::new();
    path.push(line.start);
    path.push(line.end);
    assert(path@ =~= ends(line));
    path
}

} // verus!
