//! The plot kinds of a rendering backend: the interface through which a
//! report asks for its figures.

use crate::backend::PlottersBackend;
use crate::context::{PlotContext, PlotData};
use crate::dispatch::{
    answer, comparison_request, optional_answer, plain_request, request_comparison,
    request_summary, summary_request, PlotKind, ReportFile, Request,
};
use crate::error::PlotError;
use vstd::prelude::*;

verus! {

/// The kinds of plot of a report. For each, a backend resolves what is to be
/// drawn, or says that it has no such plot.
pub trait Plotter {
    /// Resolves the density plot of a benchmark.
    fn pdf(&mut self, ctx: PlotContext<'_>, data: PlotData) -> (r: Result<Request, PlotError>)
        ensures
            r == Err::<Request, PlotError>(PlotError::Unsupported) || answer(r) == plain_request(
                PlotKind::Pdf,
                ctx,
            ),
    ;

    /// Resolves the thumbnail of the density plot of a benchmark.
    fn pdf_thumbnail(&mut self, ctx: PlotContext<'_>, data: PlotData) -> (r: Result<
        Request,
        PlotError,
    >)
        ensures
            r == Err::<Request, PlotError>(PlotError::Unsupported) || answer(r) == plain_request(
                PlotKind::PdfThumbnail,
                ctx,
            ),
    ;

    /// Resolves the density plots of two runs in one figure. Fails where there
    /// is nothing to compare with.
    fn pdf_comparison(&mut self, ctx: PlotContext<'_>, data: PlotData) -> (r: Result<
        Request,
        PlotError,
    >)
        ensures
            r == Err::<Request, PlotError>(PlotError::Unsupported) || answer(r)
                == comparison_request(
                PlotKind::PdfComparison,
                ReportFile::BothPdf,
                true,
                ctx,
                data,
            ),
    ;

    /// Resolves the thumbnail of the density plots of two runs: another file,
    /// and no title. Fails where there is nothing to compare with.
    fn pdf_comparison_thumbnail(&mut self, ctx: PlotContext<'_>, data: PlotData) -> (r: Result<
        Request,
        PlotError,
    >)
        ensures
            r == Err::<Request, PlotError>(PlotError::Unsupported) || answer(r)
                == comparison_request(
                PlotKind::PdfComparisonThumbnail,
                ReportFile::RelativePdfSmall,
                false,
                ctx,
                data,
            ),
    ;

    /// Resolves the regression of one run, where the backend has such a plot.
    fn regression(&mut self, ctx: PlotContext<'_>, data: PlotData) -> (r: Result<Request, PlotError>)
        ensures
            optional_answer(PlotKind::Regression, data, r),
    ;

    /// Resolves the thumbnail of the regression of one run, where the backend has such a plot.
    fn regression_thumbnail(&mut self, ctx: PlotContext<'_>, data: PlotData) -> (r: Result<Request, PlotError>)
        ensures
            optional_answer(PlotKind::RegressionThumbnail, data, r),
    ;

    /// Resolves the comparison of two regressions, where the backend has such a plot.
    fn regression_comparison(&mut self, ctx: PlotContext<'_>, data: PlotData) -> (r: Result<Request, PlotError>)
        ensures
            optional_answer(PlotKind::RegressionComparison, data, r),
    ;

    /// Resolves the thumbnail of the comparison of two regressions, where the backend has such a plot.
    fn regression_comparison_thumbnail(&mut self, ctx: PlotContext<'_>, data: PlotData) -> (r: Result<Request, PlotError>)
        ensures
            optional_answer(PlotKind::RegressionComparisonThumbnail, data, r),
    ;

    /// Resolves the iteration times of one run, where the backend has such a plot.
    fn iteration_times(&mut self, ctx: PlotContext<'_>, data: PlotData) -> (r: Result<Request, PlotError>)
        ensures
            optional_answer(PlotKind::IterationTimes, data, r),
    ;

    /// Resolves the thumbnail of the iteration times of one run, where the backend has such a plot.
    fn iteration_times_thumbnail(&mut self, ctx: PlotContext<'_>, data: PlotData) -> (r: Result<Request, PlotError>)
        ensures
            optional_answer(PlotKind::IterationTimesThumbnail, data, r),
    ;

    /// Resolves the iteration times of two runs, where the backend has such a plot.
    fn iteration_times_comparison(&mut self, ctx: PlotContext<'_>, data: PlotData) -> (r: Result<Request, PlotError>)
        ensures
            optional_answer(PlotKind::IterationTimesComparison, data, r),
    ;

    /// Resolves the thumbnail of the iteration times of two runs, where the backend has such a plot.
    fn iteration_times_comparison_thumbnail(&mut self, ctx: PlotContext<'_>, data: PlotData) -> (r: Result<Request, PlotError>)
        ensures
            optional_answer(PlotKind::IterationTimesComparisonThumbnail, data, r),
    ;

    /// Resolves the distributions of the statistics of one run, where the backend has such a plot.
    fn abs_distributions(&mut self, ctx: PlotContext<'_>, data: PlotData) -> (r: Result<Request, PlotError>)
        ensures
            optional_answer(PlotKind::AbsDistributions, data, r),
    ;

    /// Resolves the distributions of the relative changes between two runs, where the backend has such a plot.
    fn rel_distributions(&mut self, ctx: PlotContext<'_>, data: PlotData) -> (r: Result<Request, PlotError>)
        ensures
            optional_answer(PlotKind::RelDistributions, data, r),
    ;

    /// Resolves the chart of one value across the benchmarks of a group.
    fn line_comparison(&mut self, ctx: PlotContext<'_>) -> (r: Result<Request, PlotError>)
        ensures
            r == Err::<Request, PlotError>(PlotError::Unsupported) || answer(r)
                == summary_request(PlotKind::LineComparison, ctx),
    ;

    /// Resolves the violin plot of the benchmarks of a group.
    fn violin(&mut self, ctx: PlotContext<'_>) -> (r: Result<Request, PlotError>)
        ensures
            r == Err::<Request, PlotError>(PlotError::Unsupported) || answer(r)
                == summary_request(PlotKind::Violin, ctx),
    ;

    /// Resolves the plot of the t-test between two runs. Fails where there is
    /// nothing to compare with.
    fn t_test(&mut self, ctx: PlotContext<'_>, data: PlotData) -> (r: Result<Request, PlotError>)
        ensures
            r == Err::<Request, PlotError>(PlotError::Unsupported) || answer(r)
                == comparison_request(PlotKind::TTest, ReportFile::TTest, true, ctx, data),
    ;

    /// Returns when every plot asked for so far has been drawn.
    fn wait(&mut self);
}

impl Plotter for PlottersBackend {
    fn pdf(&mut self, ctx: PlotContext<'_>, data: PlotData) -> (r: Result<Request, PlotError>)
        ensures
            answer(r) == plain_request(PlotKind::Pdf, ctx),
            *final(self) == *old(self),
    {
        Ok(Request { kind: PlotKind::Pdf, file: None, title: None, size: ctx.size, scale: None })
    }

    fn pdf_thumbnail(&mut self, ctx: PlotContext<'_>, data: PlotData) -> (r: Result<
        Request,
        PlotError,
    >)
        ensures
            answer(r) == plain_request(PlotKind::PdfThumbnail, ctx),
            *final(self) == *old(self),
    {
        Ok(
            Request {
                kind: PlotKind::PdfThumbnail,
                file: None,
                title: None,
                size: ctx.size,
                scale: None,
            },
        )
    }

    fn pdf_comparison(&mut self, ctx: PlotContext<'_>, data: PlotData) -> (r: Result<
        Request,
        PlotError,
    >)
        ensures
            answer(r) == comparison_request(
                PlotKind::PdfComparison,
                ReportFile::BothPdf,
                true,
                ctx,
                data,
            ),
            !data.has_comparison ==> r == Err::<Request, PlotError>(PlotError::MissingComparison),
            *final(self) == *old(self),
    {
        request_comparison(PlotKind::PdfComparison, ReportFile::BothPdf, true, ctx, data)
    }

    fn pdf_comparison_thumbnail(&mut self, ctx: PlotContext<'_>, data: PlotData) -> (r: Result<
        Request,
        PlotError,
    >)
        ensures
            answer(r) == comparison_request(
                PlotKind::PdfComparisonThumbnail,
                ReportFile::RelativePdfSmall,
                false,
                ctx,
                data,
            ),
            !data.has_comparison ==> r == Err::<Request, PlotError>(PlotError::MissingComparison),
            *final(self) == *old(self),
    {
        request_comparison(
            PlotKind::PdfComparisonThumbnail,
            ReportFile::RelativePdfSmall,
            false,
            ctx,
            data,
        )
    }

    fn regression(&mut self, ctx: PlotContext<'_>, data: PlotData) -> (r: Result<Request, PlotError>)
        ensures
            r == Err::<Request, PlotError>(PlotError::Unsupported),
            *final(self) == *old(self),
    {
        Err(PlotError::Unsupported)
    }

    fn regression_thumbnail(&mut self, ctx: PlotContext<'_>, data: PlotData) -> (r: Result<Request, PlotError>)
        ensures
            r == Err::<Request, PlotError>(PlotError::Unsupported),
            *final(self) == *old(self),
    {
        Err(PlotError::Unsupported)
    }

    fn regression_comparison(&mut self, ctx: PlotContext<'_>, data: PlotData) -> (r: Result<Request, PlotError>)
        ensures
            r == Err::<Request, PlotError>(PlotError::Unsupported),
            *final(self) == *old(self),
    {
        Err(PlotError::Unsupported)
    }

    fn regression_comparison_thumbnail(&mut self, ctx: PlotContext<'_>, data: PlotData) -> (r: Result<Request, PlotError>)
        ensures
            r == Err::<Request, PlotError>(PlotError::Unsupported),
            *final(self) == *old(self),
    {
        Err(PlotError::Unsupported)
    }

    fn iteration_times(&mut self, ctx: PlotContext<'_>, data: PlotData) -> (r: Result<Request, PlotError>)
        ensures
            r == Err::<Request, PlotError>(PlotError::Unsupported),
            *final(self) == *old(self),
    {
        Err(PlotError::Unsupported)
    }

    fn iteration_times_thumbnail(&mut self, ctx: PlotContext<'_>, data: PlotData) -> (r: Result<Request, PlotError>)
        ensures
            r == Err::<Request, PlotError>(PlotError::Unsupported),
            *final(self) == *old(self),
    {
        Err(PlotError::Unsupported)
    }

    fn iteration_times_comparison(&mut self, ctx: PlotContext<'_>, data: PlotData) -> (r: Result<Request, PlotError>)
        ensures
            r == Err::<Request, PlotError>(PlotError::Unsupported),
            *final(self) == *old(self),
    {
        Err(PlotError::Unsupported)
    }

    fn iteration_times_comparison_thumbnail(&mut self, ctx: PlotContext<'_>, data: PlotData) -> (r: Result<Request, PlotError>)
        ensures
            r == Err::<Request, PlotError>(PlotError::Unsupported),
            *final(self) == *old(self),
    {
        Err(PlotError::Unsupported)
    }

    fn abs_distributions(&mut self, ctx: PlotContext<'_>, data: PlotData) -> (r: Result<Request, PlotError>)
        ensures
            r == Err::<Request, PlotError>(PlotError::Unsupported),
            *final(self) == *old(self),
    {
        Err(PlotError::Unsupported)
    }

    fn rel_distributions(&mut self, ctx: PlotContext<'_>, data: PlotData) -> (r: Result<Request, PlotError>)
        ensures
            r == Err::<Request, PlotError>(PlotError::Unsupported),
            *final(self) == *old(self),
    {
        Err(PlotError::Unsupported)
    }

    fn line_comparison(&mut self, ctx: PlotContext<'_>) -> (r: Result<Request, PlotError>)
        ensures
            answer(r) == summary_request(PlotKind::LineComparison, ctx),
            *final(self) == *old(self),
    {
        request_summary(PlotKind::LineComparison, ctx)
    }

    fn violin(&mut self, ctx: PlotContext<'_>) -> (r: Result<Request, PlotError>)
        ensures
            answer(r) == summary_request(PlotKind::Violin, ctx),
            *final(self) == *old(self),
    {
        request_summary(PlotKind::Violin, ctx)
    }

    fn t_test(&mut self, ctx: PlotContext<'_>, data: PlotData) -> (r: Result<Request, PlotError>)
        ensures
            answer(r) == comparison_request(PlotKind::TTest, ReportFile::TTest, true, ctx, data),
            !data.has_comparison ==> r == Err::<Request, PlotError>(PlotError::MissingComparison),
            *final(self) == *old(self),
    {
        request_comparison(PlotKind::TTest, ReportFile::TTest, true, ctx, data)
    }

    /// Every plot is complete when the call that asked for it returns, so
    /// there is nothing to wait for.
    fn wait(&mut self)
        ensures
            *final(self) == *old(self),
    {
    }
}

} // verus!
