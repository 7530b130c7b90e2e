//! What the dispatcher answers: for each kind of plot, the figure to draw,
//! the file it goes to, its title and its size.

use crate::context::{AxisScale, PlotContext, PlotData};
use crate::error::PlotError;
use crate::geometry::Size;
use vstd::prelude::*;

verus! {

/// The kinds of plot that a report may ask a backend for.
#[derive(Clone, Copy, PartialEq, Eq, Debug, Structural)]
pub enum PlotKind {
    Pdf,
    PdfThumbnail,
    PdfComparison,
    PdfComparisonThumbnail,
    Regression,
    RegressionThumbnail,
    RegressionComparison,
    RegressionComparisonThumbnail,
    IterationTimes,
    IterationTimesThumbnail,
    IterationTimesComparison,
    IterationTimesComparisonThumbnail,
    AbsDistributions,
    RelDistributions,
    LineComparison,
    Violin,
    TTest,
}

impl PlotKind {
    /// The plot sets the current run against an earlier one, and has no
    /// content without the data of that comparison.
    pub open spec fn compares(self) -> bool {
        match self {
            PlotKind::PdfComparison => true,
            PlotKind::PdfComparisonThumbnail => true,
            PlotKind::RegressionComparison => true,
            PlotKind::RegressionComparisonThumbnail => true,
            PlotKind::IterationTimesComparison => true,
            PlotKind::IterationTimesComparisonThumbnail => true,
            PlotKind::TTest => true,
            _ => false,
        }
    }

    /// Tells the plots that need comparison data from those that do not.
    pub fn needs_comparison(&self) -> (b: bool)
        ensures
            b == self.compares(),
    {
        match self {
            PlotKind::PdfComparison => true,
            PlotKind::PdfComparisonThumbnail => true,
            PlotKind::RegressionComparison => true,
            PlotKind::RegressionComparisonThumbnail => true,
            PlotKind::IterationTimesComparison => true,
            PlotKind::IterationTimesComparisonThumbnail => true,
            PlotKind::TTest => true,
            _ => false,
        }
    }
}

/// The files, below the report directory of a benchmark, that the dispatcher
/// itself names.
#[derive(Clone, Copy, PartialEq, Eq, Debug, Structural)]
pub enum ReportFile {
    BothPdf,
    RelativePdfSmall,
    TTest,
}

impl ReportFile {
    /// The path of the file below the report directory, as characters.
    pub open spec fn path(self) -> Seq<char> {
        match self {
            ReportFile::BothPdf => "both/pdf.svg"@,
            ReportFile::RelativePdfSmall => "relative_pdf_small.svg"@,
            ReportFile::TTest => "change/t-test.svg"@,
        }
    }

    /// The path of the file below the report directory.
    pub fn name(&self) -> (s: &'static str)
        ensures
            s@ == self.path(),
    {
        match self {
            ReportFile::BothPdf => "both/pdf.svg",
            ReportFile::RelativePdfSmall => "relative_pdf_small.svg",
            ReportFile::TTest => "change/t-test.svg",
        }
    }
}

/// What the dispatcher resolved for one plot.
#[derive(PartialEq, Eq, Debug)]
pub struct Request {
    /// The figure to draw.
    pub kind: PlotKind,
    /// The file of the figure, where the dispatcher names it. Of the other
    /// figures the report's path layer knows the place.
    pub file: Option<ReportFile>,
    /// The title, where the figure is given one.
    pub title: Option<String>,
    /// The size asked for; the thumbnail and the full view of one plot are
    /// asked for apiece, each with its own.
    pub size: Option<Size>,
    /// The scale of the value axis, in a summary across benchmarks.
    pub scale: Option<AxisScale>,
}

/// A request with its title as characters.
pub struct RequestView {
    pub kind: PlotKind,
    pub file: Option<ReportFile>,
    pub title: Option<Seq<char>>,
    pub size: Option<Size>,
    pub scale: Option<AxisScale>,
}

impl View for Request {
    type V = RequestView;

    open spec fn view(&self) -> RequestView {
        RequestView {
            kind: self.kind,
            file: self.file,
            title: match self.title {
                Some(t) => Some(t@),
                None => None,
            },
            size: self.size,
            scale: self.scale,
        }
    }
}

/// What the dispatcher returned, with the request as its view.
pub open spec fn answer(r: Result<Request, PlotError>) -> Result<RequestView, PlotError> {
    match r {
        Ok(request) => Ok(request@),
        Err(e) => Err(e),
    }
}

/// The request for a figure that finds its own file and title from the
/// benchmark: the density plot, full size or as a thumbnail.
pub open spec fn plain_request(kind: PlotKind, ctx: PlotContext) -> Result<
    RequestView,
    PlotError,
> {
    Ok(RequestView { kind, file: None, title: None, size: ctx.size, scale: None })
}

/// The request for a figure that compares two runs, to be written to `file`:
/// an error where there is nothing to compare with.
pub open spec fn comparison_request(
    kind: PlotKind,
    file: ReportFile,
    titled: bool,
    ctx: PlotContext,
    data: PlotData,
) -> Result<RequestView, PlotError> {
    if !data.has_comparison {
        Err(PlotError::MissingComparison)
    } else {
        Ok(
            RequestView {
                kind,
                file: Some(file),
                title: if titled {
                    Some(ctx.id.title@)
                } else {
                    None
                },
                size: ctx.size,
                scale: None,
            },
        )
    }
}

/// The request for a summary across benchmarks, on the scale that the report
/// is configured with.
pub open spec fn summary_request(kind: PlotKind, ctx: PlotContext) -> Result<
    RequestView,
    PlotError,
> {
    Ok(
        RequestView {
            kind,
            file: None,
            title: Some(ctx.id.title@),
            size: None,
            scale: Some(ctx.summary_scale),
        },
    )
}

/// What a backend may answer when asked for a plot that this library does not
/// describe further: that it has no such plot, or a request of that kind,
/// which a plot that compares gives only where there is comparison data.
pub open spec fn optional_answer(
    kind: PlotKind,
    data: PlotData,
    r: Result<Request, PlotError>,
) -> bool {
    match r {
        Ok(request) => request.kind == kind && (kind.compares() ==> data.has_comparison),
        Err(e) => e == PlotError::Unsupported || (e == PlotError::MissingComparison
            && kind.compares() && !data.has_comparison),
    }
}

/// The answer for a figure that compares two runs. Without comparison data
/// there is no request.
pub fn request_comparison(
    kind: PlotKind,
    file: ReportFile,
    titled: bool,
    ctx: PlotContext,
    data: PlotData,
) -> (r: Result<Request, PlotError>)
    ensures
        answer(r) == comparison_request(kind, file, titled, ctx, data),
        !data.has_comparison ==> r == Err::<Request, PlotError>(PlotError::MissingComparison),
{
    if !data.has_comparison {
        return Err(PlotError::MissingComparison);
    }
    let title = if titled {
        Some(String::from_str(ctx.id.as_title()))
    } else {
        None
    };
    Ok(Request { kind, file: Some(file), title, size: ctx.size, scale: None })
}

/// The answer for a summary across benchmarks.
pub fn request_summary(kind: PlotKind, ctx: PlotContext) -> (r: Result<Request, PlotError>)
    ensures
        answer(r) == summary_request(kind, ctx),
{
    Ok(
        Request {
            kind,
            file: None,
            title: Some(String::from_str(ctx.id.as_title())),
            size: None,
            scale: Some(ctx.summary_scale),
        },
    )
}

} // verus!
